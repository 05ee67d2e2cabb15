//! The table of supported events: for each kind its name, its canonical ABI
//! signature, the hash of that signature and the number of topics that a log
//! of the kind carries.

use crate::primitives::B256;
use vstd::prelude::*;

verus! {

/// Every kind of event that the prefilters look for.
#[derive(Clone, Copy, Debug, PartialEq, Eq, Hash, Structural)]
pub enum EventKind {
    UniV3Mint,
    UniV3Collect,
    UniV3Burn,
    UniV3Swap,
    UniV3Flash,
    ChainlinkAnswerUpdated,
    ChainlinkNewRound,
    AaveSupply,
    AaveWithdraw,
    AaveBorrow,
    AaveRepay,
    AaveLiquidationCall,
    MorphoSupply,
    MorphoWithdraw,
    MorphoBorrow,
    MorphoRepay,
    MorphoSupplyCollateral,
    MorphoWithdrawCollateral,
    MorphoLiquidate,
    MorphoCreateMarket,
}

/// One row of the table.
#[derive(Clone, Copy, Debug)]
pub struct EventSignature {
    /// The event's name in its contract.
    pub name: &'static str,
    /// The name followed by the parameter types, in declared order.
    pub canonical_abi_string: &'static str,
    /// The keccak256 hash of `canonical_abi_string`; topic 0 of a matching log.
    pub signature_hash: B256,
    /// One for topic 0, and one for each indexed parameter.
    pub expected_topic_count: usize,
    /// The number of parameters that are not indexed: the words of the data payload.
    pub data_word_count: usize,
}

impl EventKind {
    /// The hash that topic 0 of a log of this kind holds.
    pub open spec fn hash(self) -> B256 {
        match self {
            EventKind::UniV3Mint => B256 {
                hi: 0x7a53080ba414158be7ec69b987b5fb7d,
                lo: 0x07dee101fe85488f0853ae16239d0bde,
            },
            EventKind::UniV3Collect => B256 {
                hi: 0x70935338e69775456a85ddef226c395f,
                lo: 0xb668b63fa0115f5f20610b388e6ca9c0,
            },
            EventKind::UniV3Burn => B256 {
                hi: 0x0c396cd989a39f4459b5fa1aed6a9a8d,
                lo: 0xcdbc45908acfd67e028cd568da98982c,
            },
            EventKind::UniV3Swap => B256 {
                hi: 0xc42079f94a6350d7e6235f29174924f9,
                lo: 0x28cc2ac818eb64fed8004e115fbcca67,
            },
            EventKind::UniV3Flash => B256 {
                hi: 0xbdbdb71d7860376ba52b25a5028beea2,
                lo: 0x3581364a40522f6bcfb86bb1f2dca633,
            },
            EventKind::ChainlinkAnswerUpdated => B256 {
                hi: 0x0559884fd3a460db3073b7fc896cc779,
                lo: 0x86f16e378210ded43186175bf646fc5f,
            },
            EventKind::ChainlinkNewRound => B256 {
                hi: 0x0109fc6f55cf40689f02fbaad7af7fe7,
                lo: 0xbbac8a3d2186600afc7d3e10cac60271,
            },
            EventKind::AaveSupply => B256 {
                hi: 0x2b627736bca15cd5381dcf80b0bf11fd,
                lo: 0x197d01a037c52b927a881a10fb73ba61,
            },
            EventKind::AaveWithdraw => B256 {
                hi: 0x3115d1449a7b732c986cba18244e897a,
                lo: 0x450f61e1bb8d589cd2e69e6c8924f9f7,
            },
            EventKind::AaveBorrow => B256 {
                hi: 0xb3d084820fb1a9decffb176436bd0255,
                lo: 0x8d15fac9b0ddfed8c465bc7359d7dce0,
            },
            EventKind::AaveRepay => B256 {
                hi: 0xa534c8dbe71f871f9f3530e97a74601f,
                lo: 0xea17b426cae02e1c5aee42c96c784051,
            },
            EventKind::AaveLiquidationCall => B256 {
                hi: 0xe413a321e8681d831f4dbccbca790d29,
                lo: 0x52b56f977908e45be37335533e005286,
            },
            EventKind::MorphoSupply => B256 {
                hi: 0xedf8870433c83823eb071d3df1caa8d0,
                lo: 0x08f12f6440918c20d75a3602cda30fe0,
            },
            EventKind::MorphoWithdraw => B256 {
                hi: 0xa56fc0ad5702ec05ce63666221f796fb,
                lo: 0x62437c32db1aa1aa075fc6484cf58fbf,
            },
            EventKind::MorphoBorrow => B256 {
                hi: 0x570954540bed6b1304a87dfe815a5eda,
                lo: 0x4a648f7097a16240dcd85c9b5fd42a43,
            },
            EventKind::MorphoRepay => B256 {
                hi: 0x52acb05cebbd3cd39715469f22afbf5a,
                lo: 0x17496295ef3bc9bb5944056c63ccaa09,
            },
            EventKind::MorphoSupplyCollateral => B256 {
                hi: 0xa3b9472a1399e17e123f3c2e6586c23e,
                lo: 0x504184d504de59cdaa2b375e880c6184,
            },
            EventKind::MorphoWithdrawCollateral => B256 {
                hi: 0xe80ebd7cc9223d7382aab2e0d1d6155c,
                lo: 0x65651f83d53c8b9b06901d167e321142,
            },
            EventKind::MorphoLiquidate => B256 {
                hi: 0xa4946ede45d0c6f06a0f5ce92c9ad3b4,
                lo: 0x751452d2fe0e25010783bcab57a67e41,
            },
            EventKind::MorphoCreateMarket => B256 {
                hi: 0x0c93f98c4d9556735b225fc437575483,
                lo: 0x3d94213dc489cc5b49180341bbae72e4,
            },
        }
    }

    /// The number of topics of a log of this kind: topic 0 and the indexed parameters.
    pub open spec fn topics(self) -> nat {
        match self {
            EventKind::UniV3Swap
            | EventKind::UniV3Flash
            | EventKind::ChainlinkAnswerUpdated
            | EventKind::ChainlinkNewRound => 3,
            EventKind::MorphoCreateMarket => 2,
            _ => 4,
        }
    }

    /// The number of 32-byte words in the data payload of a log of this kind.
    pub open spec fn data_words(self) -> nat {
        match self {
            EventKind::UniV3Mint => 4,
            EventKind::UniV3Collect => 3,
            EventKind::UniV3Burn => 3,
            EventKind::UniV3Swap => 5,
            EventKind::UniV3Flash => 4,
            EventKind::ChainlinkAnswerUpdated => 1,
            EventKind::ChainlinkNewRound => 1,
            EventKind::AaveSupply => 2,
            EventKind::AaveWithdraw => 1,
            EventKind::AaveBorrow => 4,
            EventKind::AaveRepay => 2,
            EventKind::AaveLiquidationCall => 4,
            EventKind::MorphoSupply => 2,
            EventKind::MorphoWithdraw => 3,
            EventKind::MorphoBorrow => 3,
            EventKind::MorphoRepay => 2,
            EventKind::MorphoSupplyCollateral => 1,
            EventKind::MorphoWithdrawCollateral => 2,
            EventKind::MorphoLiquidate => 5,
            EventKind::MorphoCreateMarket => 5,
        }
    }

    /// The event's name in its contract.
    pub open spec fn event_name(self) -> Seq<char> {
        match self {
            EventKind::UniV3Mint => "Mint"@,
            EventKind::UniV3Collect => "Collect"@,
            EventKind::UniV3Burn => "Burn"@,
            EventKind::UniV3Swap => "Swap"@,
            EventKind::UniV3Flash => "Flash"@,
            EventKind::ChainlinkAnswerUpdated => "AnswerUpdated"@,
            EventKind::ChainlinkNewRound => "NewRound"@,
            EventKind::AaveSupply => "Supply"@,
            EventKind::AaveWithdraw => "Withdraw"@,
            EventKind::AaveBorrow => "Borrow"@,
            EventKind::AaveRepay => "Repay"@,
            EventKind::AaveLiquidationCall => "LiquidationCall"@,
            EventKind::MorphoSupply => "Supply"@,
            EventKind::MorphoWithdraw => "Withdraw"@,
            EventKind::MorphoBorrow => "Borrow"@,
            EventKind::MorphoRepay => "Repay"@,
            EventKind::MorphoSupplyCollateral => "SupplyCollateral"@,
            EventKind::MorphoWithdrawCollateral => "WithdrawCollateral"@,
            EventKind::MorphoLiquidate => "Liquidate"@,
            EventKind::MorphoCreateMarket => "CreateMarket"@,
        }
    }

    /// The event's name followed by its parameter types in declared order,
    /// indexed or not: the text whose keccak256 hash is `hash`.
    pub open spec fn canonical(self) -> Seq<char> {
        match self {
            EventKind::UniV3Mint => "Mint(address,address,int24,int24,uint128,uint256,uint256)"@,
            EventKind::UniV3Collect => "Collect(address,address,int24,int24,uint128,uint128)"@,
            EventKind::UniV3Burn => "Burn(address,int24,int24,uint128,uint256,uint256)"@,
            EventKind::UniV3Swap => "Swap(address,address,int256,int256,uint160,uint128,int24)"@,
            EventKind::UniV3Flash => "Flash(address,address,uint256,uint256,uint256,uint256)"@,
            EventKind::ChainlinkAnswerUpdated => "AnswerUpdated(int256,uint256,uint256)"@,
            EventKind::ChainlinkNewRound => "NewRound(uint256,address,uint256)"@,
            EventKind::AaveSupply => "Supply(address,address,address,uint256,uint16)"@,
            EventKind::AaveWithdraw => "Withdraw(address,address,address,uint256)"@,
            EventKind::AaveBorrow => "Borrow(address,address,address,uint256,uint8,uint256,uint16)"@,
            EventKind::AaveRepay => "Repay(address,address,address,uint256,bool)"@,
            EventKind::AaveLiquidationCall => "LiquidationCall(address,address,address,uint256,uint256,address,bool)"@,
            EventKind::MorphoSupply => "Supply(bytes32,address,address,uint256,uint256)"@,
            EventKind::MorphoWithdraw => "Withdraw(bytes32,address,address,address,uint256,uint256)"@,
            EventKind::MorphoBorrow => "Borrow(bytes32,address,address,address,uint256,uint256)"@,
            EventKind::MorphoRepay => "Repay(bytes32,address,address,uint256,uint256)"@,
            EventKind::MorphoSupplyCollateral => "SupplyCollateral(bytes32,address,address,uint256)"@,
            EventKind::MorphoWithdrawCollateral => "WithdrawCollateral(bytes32,address,address,address,uint256)"@,
            EventKind::MorphoLiquidate => "Liquidate(bytes32,address,address,uint256,uint256,uint256,uint256,uint256)"@,
            EventKind::MorphoCreateMarket => "CreateMarket(bytes32,address,address,address,address,uint256)"@,
        }
    }

    /// The hash that topic 0 of a log of this kind holds.
    pub fn signature_hash(self) -> (r: B256)
        ensures
            r == self.hash(),
    {
        match self {
            EventKind::UniV3Mint => B256 {
                hi: 0x7a53080ba414158be7ec69b987b5fb7d,
                lo: 0x07dee101fe85488f0853ae16239d0bde,
            },
            EventKind::UniV3Collect => B256 {
                hi: 0x70935338e69775456a85ddef226c395f,
                lo: 0xb668b63fa0115f5f20610b388e6ca9c0,
            },
            EventKind::UniV3Burn => B256 {
                hi: 0x0c396cd989a39f4459b5fa1aed6a9a8d,
                lo: 0xcdbc45908acfd67e028cd568da98982c,
            },
            EventKind::UniV3Swap => B256 {
                hi: 0xc42079f94a6350d7e6235f29174924f9,
                lo: 0x28cc2ac818eb64fed8004e115fbcca67,
            },
            EventKind::UniV3Flash => B256 {
                hi: 0xbdbdb71d7860376ba52b25a5028beea2,
                lo: 0x3581364a40522f6bcfb86bb1f2dca633,
            },
            EventKind::ChainlinkAnswerUpdated => B256 {
                hi: 0x0559884fd3a460db3073b7fc896cc779,
                lo: 0x86f16e378210ded43186175bf646fc5f,
            },
            EventKind::ChainlinkNewRound => B256 {
                hi: 0x0109fc6f55cf40689f02fbaad7af7fe7,
                lo: 0xbbac8a3d2186600afc7d3e10cac60271,
            },
            EventKind::AaveSupply => B256 {
                hi: 0x2b627736bca15cd5381dcf80b0bf11fd,
                lo: 0x197d01a037c52b927a881a10fb73ba61,
            },
            EventKind::AaveWithdraw => B256 {
                hi: 0x3115d1449a7b732c986cba18244e897a,
                lo: 0x450f61e1bb8d589cd2e69e6c8924f9f7,
            },
            EventKind::AaveBorrow => B256 {
                hi: 0xb3d084820fb1a9decffb176436bd0255,
                lo: 0x8d15fac9b0ddfed8c465bc7359d7dce0,
            },
            EventKind::AaveRepay => B256 {
                hi: 0xa534c8dbe71f871f9f3530e97a74601f,
                lo: 0xea17b426cae02e1c5aee42c96c784051,
            },
            EventKind::AaveLiquidationCall => B256 {
                hi: 0xe413a321e8681d831f4dbccbca790d29,
                lo: 0x52b56f977908e45be37335533e005286,
            },
            EventKind::MorphoSupply => B256 {
                hi: 0xedf8870433c83823eb071d3df1caa8d0,
                lo: 0x08f12f6440918c20d75a3602cda30fe0,
            },
            EventKind::MorphoWithdraw => B256 {
                hi: 0xa56fc0ad5702ec05ce63666221f796fb,
                lo: 0x62437c32db1aa1aa075fc6484cf58fbf,
            },
            EventKind::MorphoBorrow => B256 {
                hi: 0x570954540bed6b1304a87dfe815a5eda,
                lo: 0x4a648f7097a16240dcd85c9b5fd42a43,
            },
            EventKind::MorphoRepay => B256 {
                hi: 0x52acb05cebbd3cd39715469f22afbf5a,
                lo: 0x17496295ef3bc9bb5944056c63ccaa09,
            },
            EventKind::MorphoSupplyCollateral => B256 {
                hi: 0xa3b9472a1399e17e123f3c2e6586c23e,
                lo: 0x504184d504de59cdaa2b375e880c6184,
            },
            EventKind::MorphoWithdrawCollateral => B256 {
                hi: 0xe80ebd7cc9223d7382aab2e0d1d6155c,
                lo: 0x65651f83d53c8b9b06901d167e321142,
            },
            EventKind::MorphoLiquidate => B256 {
                hi: 0xa4946ede45d0c6f06a0f5ce92c9ad3b4,
                lo: 0x751452d2fe0e25010783bcab57a67e41,
            },
            EventKind::MorphoCreateMarket => B256 {
                hi: 0x0c93f98c4d9556735b225fc437575483,
                lo: 0x3d94213dc489cc5b49180341bbae72e4,
            },
        }
    }

    /// The number of topics of a log of this kind.
    pub fn expected_topic_count(self) -> (r: usize)
        ensures
            r == self.topics(),
    {
        match self {
            EventKind::UniV3Swap
            | EventKind::UniV3Flash
            | EventKind::ChainlinkAnswerUpdated
            | EventKind::ChainlinkNewRound => 3,
            EventKind::MorphoCreateMarket => 2,
            _ => 4,
        }
    }

    /// The number of 32-byte words in the data payload of a log of this kind.
    pub fn data_word_count(self) -> (r: usize)
        ensures
            r == self.data_words(),
    {
        match self {
            EventKind::UniV3Mint => 4,
            EventKind::UniV3Collect => 3,
            EventKind::UniV3Burn => 3,
            EventKind::UniV3Swap => 5,
            EventKind::UniV3Flash => 4,
            EventKind::ChainlinkAnswerUpdated => 1,
            EventKind::ChainlinkNewRound => 1,
            EventKind::AaveSupply => 2,
            EventKind::AaveWithdraw => 1,
            EventKind::AaveBorrow => 4,
            EventKind::AaveRepay => 2,
            EventKind::AaveLiquidationCall => 4,
            EventKind::MorphoSupply => 2,
            EventKind::MorphoWithdraw => 3,
            EventKind::MorphoBorrow => 3,
            EventKind::MorphoRepay => 2,
            EventKind::MorphoSupplyCollateral => 1,
            EventKind::MorphoWithdrawCollateral => 2,
            EventKind::MorphoLiquidate => 5,
            EventKind::MorphoCreateMarket => 5,
        }
    }

    /// The event's name in its contract.
    pub fn name(self) -> (r: &'static str)
        ensures
            r@ == self.event_name(),
    {
        match self {
            EventKind::UniV3Mint => "Mint",
            EventKind::UniV3Collect => "Collect",
            EventKind::UniV3Burn => "Burn",
            EventKind::UniV3Swap => "Swap",
            EventKind::UniV3Flash => "Flash",
            EventKind::ChainlinkAnswerUpdated => "AnswerUpdated",
            EventKind::ChainlinkNewRound => "NewRound",
            EventKind::AaveSupply => "Supply",
            EventKind::AaveWithdraw => "Withdraw",
            EventKind::AaveBorrow => "Borrow",
            EventKind::AaveRepay => "Repay",
            EventKind::AaveLiquidationCall => "LiquidationCall",
            EventKind::MorphoSupply => "Supply",
            EventKind::MorphoWithdraw => "Withdraw",
            EventKind::MorphoBorrow => "Borrow",
            EventKind::MorphoRepay => "Repay",
            EventKind::MorphoSupplyCollateral => "SupplyCollateral",
            EventKind::MorphoWithdrawCollateral => "WithdrawCollateral",
            EventKind::MorphoLiquidate => "Liquidate",
            EventKind::MorphoCreateMarket => "CreateMarket",
        }
    }

    /// The canonical ABI signature of the event.
    pub fn canonical_abi_string(self) -> (r: &'static str)
        ensures
            r@ == self.canonical(),
    {
        match self {
            EventKind::UniV3Mint => "Mint(address,address,int24,int24,uint128,uint256,uint256)",
            EventKind::UniV3Collect => "Collect(address,address,int24,int24,uint128,uint128)",
            EventKind::UniV3Burn => "Burn(address,int24,int24,uint128,uint256,uint256)",
            EventKind::UniV3Swap => "Swap(address,address,int256,int256,uint160,uint128,int24)",
            EventKind::UniV3Flash => "Flash(address,address,uint256,uint256,uint256,uint256)",
            EventKind::ChainlinkAnswerUpdated => "AnswerUpdated(int256,uint256,uint256)",
            EventKind::ChainlinkNewRound => "NewRound(uint256,address,uint256)",
            EventKind::AaveSupply => "Supply(address,address,address,uint256,uint16)",
            EventKind::AaveWithdraw => "Withdraw(address,address,address,uint256)",
            EventKind::AaveBorrow => "Borrow(address,address,address,uint256,uint8,uint256,uint16)",
            EventKind::AaveRepay => "Repay(address,address,address,uint256,bool)",
            EventKind::AaveLiquidationCall => "LiquidationCall(address,address,address,uint256,uint256,address,bool)",
            EventKind::MorphoSupply => "Supply(bytes32,address,address,uint256,uint256)",
            EventKind::MorphoWithdraw => "Withdraw(bytes32,address,address,address,uint256,uint256)",
            EventKind::MorphoBorrow => "Borrow(bytes32,address,address,address,uint256,uint256)",
            EventKind::MorphoRepay => "Repay(bytes32,address,address,uint256,uint256)",
            EventKind::MorphoSupplyCollateral => "SupplyCollateral(bytes32,address,address,uint256)",
            EventKind::MorphoWithdrawCollateral => "WithdrawCollateral(bytes32,address,address,address,uint256)",
            EventKind::MorphoLiquidate => "Liquidate(bytes32,address,address,uint256,uint256,uint256,uint256,uint256)",
            EventKind::MorphoCreateMarket => "CreateMarket(bytes32,address,address,address,address,uint256)",
        }
    }

    /// The whole row of the table for this kind.
    pub fn signature(self) -> (r: EventSignature)
        ensures
            r.name@ == self.event_name(),
            r.canonical_abi_string@ == self.canonical(),
            r.signature_hash == self.hash(),
            r.expected_topic_count == self.topics(),
            r.data_word_count == self.data_words(),
    {
        EventSignature {
            name: self.name(),
            canonical_abi_string: self.canonical_abi_string(),
            signature_hash: self.signature_hash(),
            expected_topic_count: self.expected_topic_count(),
            data_word_count: self.data_word_count(),
        }
    }

    /// The kind whose signature hash is `topic`, if there is one.
    pub fn from_signature_hash(topic: B256) -> (r: Option<EventKind>)
        ensures
            r is Some <==> is_registered(topic),
            r matches Some(kind) ==> kind.hash() == topic,
    {
        let kinds = EventKind::all();
        let mut i: usize = 0;
        while i < kinds.len()
            invariant
                i <= kinds.len(),
                kinds@ == EventKind::every(),
                forall|j: int| 0 <= j < i ==> kinds@[j].hash() != topic,
            decreases kinds.len() - i,
        {
            let kind = kinds[i];
            let hash = kind.signature_hash();
            if hash.hi == topic.hi && hash.lo == topic.lo {
                return Some(kind);
            }
            i = i + 1;
        }
        proof {
            assert forall|kind: EventKind| kind.hash() != topic by {
                lemma_every_kind_listed(kind);
            }
        }
        None
    }

    /// Every kind, in the order of the table.
    pub open spec fn every() -> Seq<EventKind> {
        seq![
            EventKind::UniV3Mint,
            EventKind::UniV3Collect,
            EventKind::UniV3Burn,
            EventKind::UniV3Swap,
            EventKind::UniV3Flash,
            EventKind::ChainlinkAnswerUpdated,
            EventKind::ChainlinkNewRound,
            EventKind::AaveSupply,
            EventKind::AaveWithdraw,
            EventKind::AaveBorrow,
            EventKind::AaveRepay,
            EventKind::AaveLiquidationCall,
            EventKind::MorphoSupply,
            EventKind::MorphoWithdraw,
            EventKind::MorphoBorrow,
            EventKind::MorphoRepay,
            EventKind::MorphoSupplyCollateral,
            EventKind::MorphoWithdrawCollateral,
            EventKind::MorphoLiquidate,
            EventKind::MorphoCreateMarket,
        ]
    }

    /// Every kind, in the order of the table.
    pub fn all() -> (r: Vec<EventKind>)
        ensures
            r@ == EventKind::every(),
    {
        let mut v: Vec<EventKind> = Vec::new();
        v.push(EventKind::UniV3Mint);
        v.push(EventKind::UniV3Collect);
        v.push(EventKind::UniV3Burn);
        v.push(EventKind::UniV3Swap);
        v.push(EventKind::UniV3Flash);
        v.push(EventKind::ChainlinkAnswerUpdated);
        v.push(EventKind::ChainlinkNewRound);
        v.push(EventKind::AaveSupply);
        v.push(EventKind::AaveWithdraw);
        v.push(EventKind::AaveBorrow);
        v.push(EventKind::AaveRepay);
        v.push(EventKind::AaveLiquidationCall);
        v.push(EventKind::MorphoSupply);
        v.push(EventKind::MorphoWithdraw);
        v.push(EventKind::MorphoBorrow);
        v.push(EventKind::MorphoRepay);
        v.push(EventKind::MorphoSupplyCollateral);
        v.push(EventKind::MorphoWithdrawCollateral);
        v.push(EventKind::MorphoLiquidate);
        v.push(EventKind::MorphoCreateMarket);
        assert(v@ =~= EventKind::every());
        v
    }
}

/// Whether `topic` is the signature hash of a supported event.
pub open spec fn is_registered(topic: B256) -> bool {
    exists|kind: EventKind| kind.hash() == topic
}

/// The table lists every kind.
pub proof fn lemma_every_kind_listed(kind: EventKind)
    ensures
        exists|j: int| 0 <= j < EventKind::every().len() && EventKind::every()[j] == kind,
{
    let all = EventKind::every();
    match kind {
        EventKind::UniV3Mint => assert(all[0] == kind),
        EventKind::UniV3Collect => assert(all[1] == kind),
        EventKind::UniV3Burn => assert(all[2] == kind),
        EventKind::UniV3Swap => assert(all[3] == kind),
        EventKind::UniV3Flash => assert(all[4] == kind),
        EventKind::ChainlinkAnswerUpdated => assert(all[5] == kind),
        EventKind::ChainlinkNewRound => assert(all[6] == kind),
        EventKind::AaveSupply => assert(all[7] == kind),
        EventKind::AaveWithdraw => assert(all[8] == kind),
        EventKind::AaveBorrow => assert(all[9] == kind),
        EventKind::AaveRepay => assert(all[10] == kind),
        EventKind::AaveLiquidationCall => assert(all[11] == kind),
        EventKind::MorphoSupply => assert(all[12] == kind),
        EventKind::MorphoWithdraw => assert(all[13] == kind),
        EventKind::MorphoBorrow => assert(all[14] == kind),
        EventKind::MorphoRepay => assert(all[15] == kind),
        EventKind::MorphoSupplyCollateral => assert(all[16] == kind),
        EventKind::MorphoWithdrawCollateral => assert(all[17] == kind),
        EventKind::MorphoLiquidate => assert(all[18] == kind),
        EventKind::MorphoCreateMarket => assert(all[19] == kind),
    }
}

/// No two kinds share a signature hash, so topic 0 names at most one kind.
pub proof fn lemma_signature_hashes_distinct(a: EventKind, b: EventKind)
    ensures
        a.hash() == b.hash() <==> a == b,
{
}

} // verus!
