use alloy_primitives::Address;
use tx_fillers::FillerControlFlow;
use tx_fillers::FromFiller;
use tx_fillers::GasPriceFiller;
use tx_fillers::SendableTx;
use tx_fillers::TxEnvelope;
use tx_fillers::TxFiller;
use tx_fillers::TxRequest;

#[test]
fn sender_filler_fills_absent_sender() {
    let a = Address::repeat_byte(0xAA);
    let filler = FromFiller::new(a);
    let tx = TxRequest::new();

    assert_eq!(filler.status(&tx), FillerControlFlow::Ready);
    let fillable = filler.prepare(&tx);
    let filled = filler.fill(fillable, SendableTx::Builder(tx));

    match filled {
        SendableTx::Builder(b) => {
            assert_eq!(b.from, Some(a));
            assert_eq!(b.gas_price, None);
        }
        SendableTx::Envelope(_) => panic!("fill must keep the builder shape"),
    }
}

#[test]
fn sender_filler_leaves_existing_sender() {
    let a = Address::repeat_byte(0xAA);
    let b_addr = Address::repeat_byte(0xBB);
    let filler = FromFiller::new(a);
    let mut tx = TxRequest::new();
    tx.set_from(b_addr);

    assert_eq!(filler.status(&tx), FillerControlFlow::Finished);

    // A correct pipeline never calls fill here; if called anyway, the
    // existing sender must survive.
    let filled = filler.fill((), SendableTx::Builder(tx));
    match filled {
        SendableTx::Builder(b) => assert_eq!(b.from, Some(b_addr)),
        SendableTx::Envelope(_) => panic!("fill must keep the builder shape"),
    }
}

#[test]
fn gas_filler_caches_first_quote() {
    let mut filler = GasPriceFiller::new(None);
    let mut provider_queries: usize = 0;

    // First transaction: the cache is empty, so the caller must query.
    let price1 = match filler.prepare_cached() {
        Some(p) => p,
        None => {
            provider_queries += 1;
            let quote: u128 = 42; // what the provider answered
            filler.prepare_fetched(quote)
        }
    };
    assert_eq!(price1, 42);
    assert_eq!(provider_queries, 1);

    let tx1 = filler.fill(price1, SendableTx::Builder(TxRequest::new()));
    match tx1 {
        SendableTx::Builder(b) => assert_eq!(b.gas_price, Some(42)),
        SendableTx::Envelope(_) => panic!("fill must keep the builder shape"),
    }

    // Second transaction: the cached price answers with zero further queries.
    let price2 = match filler.prepare_cached() {
        Some(p) => p,
        None => {
            provider_queries += 1;
            filler.prepare_fetched(0)
        }
    };
    assert_eq!(price2, 42);
    assert_eq!(provider_queries, 1);
}

#[test]
fn preset_gas_price_never_queries() {
    let mut filler = GasPriceFiller::new(Some(7));

    // Any number of resolutions answers from the cache, never the provider.
    for _ in 0..5 {
        match filler.prepare_cached() {
            Some(p) => assert_eq!(p, 7),
            None => panic!("a preset price must short-circuit the query"),
        }
    }

    // Even a quote committed anyway is discarded in favor of the preset.
    assert_eq!(filler.prepare_fetched(99), 7);
    assert_eq!(filler.prepare_cached(), Some(7));
}

#[test]
fn racing_quotes_observe_one_value() {
    // Two resolutions race from an empty cache: both found it empty and
    // fetched their own quote. The first commit wins; the second caller
    // discards its quote and observes the cached value.
    let mut filler = GasPriceFiller::new(None);
    assert_eq!(filler.prepare_cached(), None);
    assert_eq!(filler.prepare_cached(), None);

    let first = filler.prepare_fetched(31);
    let second = filler.prepare_fetched(57);
    assert_eq!(first, 31);
    assert_eq!(second, 31);
    assert_eq!(filler.prepare_cached(), Some(31));
}

#[test]
fn gas_fill_leaves_set_price_unchanged() {
    let filler = GasPriceFiller::new(None);
    let a = Address::repeat_byte(0x11);
    let mut tx = TxRequest::new();
    tx.set_from(a);
    tx.set_gas_price(7);

    // The fillable passed in does not matter: the field is already set.
    let filled = filler.fill(55, SendableTx::Builder(tx));
    match filled {
        SendableTx::Builder(b) => {
            assert_eq!(b.gas_price, Some(7));
            assert_eq!(b.from, Some(a));
        }
        SendableTx::Envelope(_) => panic!("fill must keep the builder shape"),
    }
}

#[test]
fn sender_fill_leaves_set_sender_unchanged() {
    let a = Address::repeat_byte(0x11);
    let filler = FromFiller::new(Address::repeat_byte(0x22));
    let mut tx = TxRequest::new();
    tx.set_from(a);
    tx.set_gas_price(9);

    let filled = filler.fill((), SendableTx::Builder(tx));
    match filled {
        SendableTx::Builder(b) => {
            assert_eq!(b.from, Some(a));
            assert_eq!(b.gas_price, Some(9));
        }
        SendableTx::Envelope(_) => panic!("fill must keep the builder shape"),
    }
}

#[test]
fn fill_on_finalized_payload_is_a_noop() {
    let a = Address::repeat_byte(0xCD);
    let sender = FromFiller::new(Address::repeat_byte(0xEF));
    let gas = GasPriceFiller::new(Some(3));

    let env = TxEnvelope { from: a, gas_price: 100 };
    let after_sender = sender.fill((), SendableTx::Envelope(env));
    let after_gas = gas.fill(999, after_sender);

    match after_gas {
        SendableTx::Envelope(e) => {
            assert_eq!(e.from, a);
            assert_eq!(e.gas_price, 100);
        }
        SendableTx::Builder(_) => panic!("a finalized payload must stay finalized"),
    }
}

#[test]
fn status_reflects_field_presence() {
    let sender = FromFiller::new(Address::ZERO);
    let gas = GasPriceFiller::new(None);

    let mut tx = TxRequest::new();
    assert_eq!(sender.status(&tx), FillerControlFlow::Ready);
    assert_eq!(gas.status(&tx), FillerControlFlow::Ready);

    tx.set_from(Address::repeat_byte(1));
    assert_eq!(sender.status(&tx), FillerControlFlow::Finished);
    assert_eq!(gas.status(&tx), FillerControlFlow::Ready);

    tx.set_gas_price(5);
    assert_eq!(gas.status(&tx), FillerControlFlow::Finished);
}

#[test]
fn zero_address_is_still_filled_in() {
    // An all-zero configured address is not itself a reason to skip filling:
    // only a sender already present on the transaction short-circuits.
    let filler = FromFiller::new(Address::ZERO);
    let tx = TxRequest::new();
    assert_eq!(filler.status(&tx), FillerControlFlow::Ready);

    let filled = filler.fill((), SendableTx::Builder(tx));
    match filled {
        SendableTx::Builder(b) => assert_eq!(b.from, Some(Address::ZERO)),
        SendableTx::Envelope(_) => panic!("fill must keep the builder shape"),
    }
}

#[test]
fn largest_price_is_cached_and_filled() {
    let mut filler = GasPriceFiller::new(None);
    let committed = filler.prepare_fetched(u128::MAX);
    assert_eq!(committed, u128::MAX);

    let filled = filler.fill(committed, SendableTx::Builder(TxRequest::new()));
    match filled {
        SendableTx::Builder(b) => assert_eq!(b.gas_price, Some(u128::MAX)),
        SendableTx::Envelope(_) => panic!("fill must keep the builder shape"),
    }
}
