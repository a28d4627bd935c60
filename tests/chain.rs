use burnchains::config::{
    BurnQuotaConfig, Burnchain, BurnchainInputType, ConsensusHashLifetime, QuotaConfigError,
    StableConfirmations,
};
use burnchains::ids::{BurnchainHeaderHash, ConsensusHash, Txid};
use burnchains::model::{
    check_linkage, BurnchainBlock, BurnchainTransaction, BurnchainTxInput, BurnchainTxOutput,
    TxInputError,
};
use burnchains::view::{check_view_sequence, BurnchainView, ViewError};

fn hash(tag: u8) -> BurnchainHeaderHash {
    BurnchainHeaderHash::from_bytes(&[tag; 32]).unwrap()
}

fn ch(tag: u8) -> ConsensusHash {
    ConsensusHash::from_bytes(&[tag; 20]).unwrap()
}

fn block(height: u64, h: u8, parent: u8) -> BurnchainBlock<String, u32> {
    BurnchainBlock {
        block_height: height,
        block_hash: hash(h),
        parent_block_hash: hash(parent),
        txs: vec![],
    }
}

fn tx(vtxindex: u32) -> BurnchainTransaction<String, u32> {
    BurnchainTransaction {
        txid: Txid::from_bytes(&[vtxindex as u8; 32]).unwrap(),
        vtxindex,
        opcode: b'[',
        data: vec![1, 2, 3],
        inputs: vec![BurnchainTxInput::new(vec![10, 11], 1, BurnchainInputType::BitcoinInput).unwrap()],
        outputs: vec![BurnchainTxOutput { address: String::from("burn"), units: 0 }],
    }
}

#[test]
fn quota_config_validation() {
    let ok = BurnQuotaConfig::new(1, 1, 2).unwrap();
    assert_eq!(ok, BurnQuotaConfig { inc: 1, dec_num: 1, dec_den: 2 });
    assert!(ok.decays());
    assert_eq!(BurnQuotaConfig::new(1, 1, 0), Err(QuotaConfigError::ZeroDenominator));
    let literal = BurnQuotaConfig { inc: 1, dec_num: 1, dec_den: 0 };
    assert_eq!(literal.validate(), Err(QuotaConfigError::ZeroDenominator));
    assert!(!literal.decays());
    let growing = BurnQuotaConfig::new(1, 3, 2).unwrap();
    assert_eq!(growing.validate(), Ok(()));
    assert!(!growing.decays());
}

#[test]
fn chain_kind_constants() {
    assert_eq!(StableConfirmations::Bitcoin.value(), 7);
    assert_eq!(ConsensusHashLifetime::Bitcoin.value(), 24);
}

#[test]
fn burnchain_construction() {
    let quota = BurnQuotaConfig { inc: 1, dec_num: 1, dec_den: 2 };
    let b = Burnchain::new(
        1,
        2,
        String::from("bitcoin"),
        String::from("mainnet"),
        String::from("/tmp/burn"),
        quota.clone(),
        StableConfirmations::Bitcoin,
        ConsensusHashLifetime::Bitcoin,
        500,
        hash(9),
    )
    .unwrap();
    assert_eq!(b.stable_confirmations, 7);
    assert_eq!(b.consensus_hash_lifetime, 24);
    assert_eq!(b.first_block_height, 500);
    assert_eq!(b.first_block_hash, hash(9));
    assert_eq!(b.burn_quota, quota);
    assert_eq!(b.chain_name, "bitcoin");
    assert_eq!(b.stable_block_height(100), 93);
    assert_eq!(b.stable_block_height(7), 0);
    assert_eq!(b.stable_block_height(3), 0);

    let bad = Burnchain::new(
        1,
        2,
        String::from("bitcoin"),
        String::from("mainnet"),
        String::from("/tmp/burn"),
        BurnQuotaConfig { inc: 1, dec_num: 1, dec_den: 0 },
        StableConfirmations::Bitcoin,
        ConsensusHashLifetime::Bitcoin,
        500,
        hash(9),
    );
    assert_eq!(bad, Err(QuotaConfigError::ZeroDenominator));
}

#[test]
fn multisig_threshold() {
    for n in [0usize, 1, 3] {
        let keys: Vec<u32> = (0..n as u32).collect();
        for req in 0..=n + 1 {
            let r = BurnchainTxInput::new(keys.clone(), req, BurnchainInputType::BitcoinSegwitP2SHInput);
            if req >= 1 && req <= n {
                let input = r.unwrap();
                assert_eq!(input.keys, keys);
                assert_eq!(input.num_required, req);
                assert_eq!(input.in_type, BurnchainInputType::BitcoinSegwitP2SHInput);
                assert_eq!(input.validate(), Ok(()));
            } else {
                assert_eq!(r, Err(TxInputError::BadThreshold { num_required: req, num_keys: n }));
                let literal = BurnchainTxInput {
                    keys: keys.clone(),
                    num_required: req,
                    in_type: BurnchainInputType::BitcoinInput,
                };
                assert_eq!(
                    literal.validate(),
                    Err(TxInputError::BadThreshold { num_required: req, num_keys: n })
                );
            }
        }
    }
}

#[test]
fn block_linkage() {
    let chain = vec![block(100, 1, 0), block(101, 2, 1), block(102, 3, 2)];
    assert!(check_linkage(&chain));
    assert!(chain[1].extends(&chain[0]));

    let broken = vec![block(100, 1, 0), block(101, 2, 7), block(102, 3, 2)];
    assert!(!check_linkage(&broken));
    assert!(!broken[1].extends(&broken[0]));

    let gap = vec![block(100, 1, 0), block(102, 2, 1)];
    assert!(!check_linkage(&gap));

    assert!(check_linkage::<String, u32>(&[]));
    assert!(check_linkage(&[block(5, 1, 0)]));
}

#[test]
fn block_transaction_order() {
    let mut b = block(100, 1, 0);
    b.txs = vec![tx(0), tx(2), tx(5)];
    assert!(b.txs_in_order());
    b.txs = vec![tx(0), tx(5), tx(2)];
    assert!(!b.txs_in_order());
    b.txs = vec![tx(1), tx(1)];
    assert!(!b.txs_in_order());
    assert_eq!(b.txs[0].outputs[0].units, 0);
    assert_eq!(b.txs[0].data, vec![1, 2, 3]);
}

#[test]
fn view_construction() {
    let v = BurnchainView::new(100, ch(1), 93, ch(2)).unwrap();
    assert_eq!(v.burn_block_height, 100);
    assert_eq!(v.burn_stable_block_height, 93);
    assert_eq!(v.burn_consensus_hash, ch(1));
    assert_eq!(v.burn_stable_consensus_hash, ch(2));
    assert!(BurnchainView::new(100, ch(1), 100, ch(1)).is_ok());
    assert_eq!(BurnchainView::new(100, ch(1), 101, ch(2)), Err(ViewError::StableAboveTip));
}

#[test]
fn view_monotonicity() {
    let a = BurnchainView::new(100, ch(1), 93, ch(2)).unwrap();
    let b = BurnchainView::new(101, ch(3), 94, ch(4)).unwrap();
    let c = BurnchainView::new(101, ch(5), 94, ch(4)).unwrap();
    assert!(b.follows(&a));
    assert!(c.follows(&b));
    assert!(!a.follows(&b));
    assert_eq!(check_view_sequence(&[a, b, c]), Ok(()));
    assert_eq!(check_view_sequence(&[b, a]), Err(ViewError::HeightDecreased));
    let bad = BurnchainView {
        burn_block_height: 90,
        burn_consensus_hash: ch(1),
        burn_stable_block_height: 95,
        burn_stable_consensus_hash: ch(2),
    };
    assert_eq!(check_view_sequence(&[a, bad]), Err(ViewError::StableAboveTip));
    assert!(!b.follows(&bad));
    assert_eq!(check_view_sequence(&[]), Ok(()));
}
