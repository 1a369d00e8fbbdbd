//! The plan by which a set of contracts is instantiated on a chain: which
//! contract comes next, and with which instantiate message.
//!
//! The plan decides; a driver performs each instantiation and reports the
//! address that the chain gave the new contract.

use vstd::prelude::*;

verus! {

/// Instantiate message of the multisig security module.
#[derive(Clone, Debug, PartialEq)]
pub struct IsmMultisigInstantiateMsg {
    pub owner: String,
}

/// Instantiate message of the mock message receiver.
#[derive(Clone, Debug, PartialEq)]
pub struct TestMockMsgReceiverInstantiateMsg {
    pub hrp: String,
}

/// Instantiate message of the gas oracle.
#[derive(Clone, Debug, PartialEq)]
pub struct IGPOracleInstantiateMsg {
    pub owner: String,
}

/// Instantiate message of a contract that takes no settings.
#[derive(Clone, Debug, PartialEq)]
pub struct EmptyMsg {}

/// Instantiate message of the gas paymaster.
#[derive(Clone, Debug, PartialEq)]
pub struct GasOracleInitMsg {
    pub hrp: String,
    pub owner: String,
    pub gas_token: String,
    pub beneficiary: String,
    pub default_gas_usage: String,
}

/// The contracts of a deployment, in the order in which they are
/// instantiated.
#[derive(Clone, Copy, Debug, PartialEq, Eq, Structural)]
pub enum Contract {
    Mailbox,
    Igp,
    IgpOracle,
    IsmRouting,
    IsmMultisig,
    IsmAggregate,
    HookMerkle,
    HookRouting,
    ValidatorAnnounce,
    MockReceiver,
    MockHook,
    MockIsm,
}

/// The instantiate message of one contract.
#[derive(Clone, Debug, PartialEq)]
pub enum InitMsg {
    Mailbox { hrp: String, owner: String, domain: u32 },
    Igp(GasOracleInitMsg),
    IgpOracle(IGPOracleInstantiateMsg),
    IsmRouting { owner: String },
    IsmMultisig(IsmMultisigInstantiateMsg),
    IsmAggregate { owner: String, isms: Vec<String>, threshold: u8 },
    HookMerkle { owner: String, mailbox: String },
    HookRouting { owner: String },
    ValidatorAnnounce { hrp: String, mailbox: String },
    MockReceiver(TestMockMsgReceiverInstantiateMsg),
    Empty(EmptyMsg),
}

/// What an instantiate message says, as plain text.
pub enum InitMsgView {
    Mailbox { hrp: Seq<char>, owner: Seq<char>, domain: u32 },
    Igp {
        hrp: Seq<char>,
        owner: Seq<char>,
        gas_token: Seq<char>,
        beneficiary: Seq<char>,
        default_gas_usage: Seq<char>,
    },
    IgpOracle { owner: Seq<char> },
    IsmRouting { owner: Seq<char> },
    IsmMultisig { owner: Seq<char> },
    IsmAggregate { owner: Seq<char>, isms: Seq<Seq<char>>, threshold: u8 },
    HookMerkle { owner: Seq<char>, mailbox: Seq<char> },
    HookRouting { owner: Seq<char> },
    ValidatorAnnounce { hrp: Seq<char>, mailbox: Seq<char> },
    MockReceiver { hrp: Seq<char> },
    Empty,
}

/// The texts of a list of strings.
pub open spec fn texts(strings: Seq<String>) -> Seq<Seq<char>> {
    Seq::new(strings.len(), |i: int| strings[i]@)
}

impl View for InitMsg {
    type V = InitMsgView;

    open spec fn view(&self) -> InitMsgView {
        match *self {
            InitMsg::Mailbox { hrp, owner, domain } => InitMsgView::Mailbox {
                hrp: hrp@,
                owner: owner@,
                domain,
            },
            InitMsg::Igp(msg) => InitMsgView::Igp {
                hrp: msg.hrp@,
                owner: msg.owner@,
                gas_token: msg.gas_token@,
                beneficiary: msg.beneficiary@,
                default_gas_usage: msg.default_gas_usage@,
            },
            InitMsg::IgpOracle(msg) => InitMsgView::IgpOracle { owner: msg.owner@ },
            InitMsg::IsmRouting { owner } => InitMsgView::IsmRouting { owner: owner@ },
            InitMsg::IsmMultisig(msg) => InitMsgView::IsmMultisig { owner: msg.owner@ },
            InitMsg::IsmAggregate { owner, isms, threshold } => InitMsgView::IsmAggregate {
                owner: owner@,
                isms: texts(isms@),
                threshold,
            },
            InitMsg::HookMerkle { owner, mailbox } => InitMsgView::HookMerkle {
                owner: owner@,
                mailbox: mailbox@,
            },
            InitMsg::HookRouting { owner } => InitMsgView::HookRouting { owner: owner@ },
            InitMsg::ValidatorAnnounce { hrp, mailbox } => InitMsgView::ValidatorAnnounce {
                hrp: hrp@,
                mailbox: mailbox@,
            },
            InitMsg::MockReceiver(msg) => InitMsgView::MockReceiver { hrp: msg.hrp@ },
            InitMsg::Empty(_) => InitMsgView::Empty,
        }
    }
}

/// The addresses of all contracts of a finished deployment.
#[derive(Clone, Debug, PartialEq)]
pub struct Deployments {
    pub hook_merkle: String,
    pub hook_routing: String,
    pub igp: String,
    pub igp_oracle: String,
    pub ism_aggregate: String,
    pub ism_routing: String,
    pub ism_multisig: String,
    pub mailbox: String,
    pub mock_receiver: String,
    pub mock_hook: String,
    pub mock_ism: String,
    pub va: String,
}

/// The number of contracts in a deployment.
pub const CONTRACT_COUNT: usize = 12;

/// The contract that is instantiated at a position of the order.
pub open spec fn contract_at(position: int) -> Contract {
    if position == 0 {
        Contract::Mailbox
    } else if position == 1 {
        Contract::Igp
    } else if position == 2 {
        Contract::IgpOracle
    } else if position == 3 {
        Contract::IsmRouting
    } else if position == 4 {
        Contract::IsmMultisig
    } else if position == 5 {
        Contract::IsmAggregate
    } else if position == 6 {
        Contract::HookMerkle
    } else if position == 7 {
        Contract::HookRouting
    } else if position == 8 {
        Contract::ValidatorAnnounce
    } else if position == 9 {
        Contract::MockReceiver
    } else if position == 10 {
        Contract::MockHook
    } else {
        Contract::MockIsm
    }
}

/// The label under which a contract is instantiated.
pub open spec fn label_of(contract: Contract) -> Seq<char> {
    match contract {
        Contract::Mailbox => "hpl_mailbox"@,
        Contract::Igp => "hpl_igp"@,
        Contract::IgpOracle => "hpl_igp_oracle"@,
        Contract::IsmRouting => "hpl_ism_routing"@,
        Contract::IsmMultisig => "hpl_ism_multisig"@,
        Contract::IsmAggregate => "hpl_ism_aggregate"@,
        Contract::HookMerkle => "hpl_hook_merkle"@,
        Contract::HookRouting => "hpl_hook_routing"@,
        Contract::ValidatorAnnounce => "hpl_validator_announce"@,
        Contract::MockReceiver => "hpl_test_mock_msg_receiver"@,
        Contract::MockHook => "hpl_test_mock_hook"@,
        Contract::MockIsm => "hpl_test_mock_ism"@,
    }
}

/// The instantiate message of a contract, given the deployer's address,
/// the domain and the addresses of the contracts instantiated before it.
/// The deployer owns every contract; the merkle hook and the validator
/// announce refer to the mailbox, the aggregate module to the multisig
/// module.
pub open spec fn init_msg_of(
    contract: Contract,
    deployer: Seq<char>,
    domain: u32,
    addresses: Seq<Seq<char>>,
) -> InitMsgView {
    match contract {
        Contract::Mailbox => InitMsgView::Mailbox { hrp: "osmo"@, owner: deployer, domain },
        Contract::Igp => InitMsgView::Igp {
            hrp: "osmo"@,
            owner: deployer,
            gas_token: "uosmo"@,
            beneficiary: deployer,
            default_gas_usage: "25000"@,
        },
        Contract::IgpOracle => InitMsgView::IgpOracle { owner: deployer },
        Contract::IsmRouting => InitMsgView::IsmRouting { owner: deployer },
        Contract::IsmMultisig => InitMsgView::IsmMultisig { owner: deployer },
        Contract::IsmAggregate => InitMsgView::IsmAggregate {
            owner: deployer,
            isms: seq![addresses[4]],
            threshold: 1,
        },
        Contract::HookMerkle => InitMsgView::HookMerkle { owner: deployer, mailbox: addresses[0] },
        Contract::HookRouting => InitMsgView::HookRouting { owner: deployer },
        Contract::ValidatorAnnounce => InitMsgView::ValidatorAnnounce {
            hrp: "osmo"@,
            mailbox: addresses[0],
        },
        Contract::MockReceiver => InitMsgView::MockReceiver { hrp: "osmo"@ },
        Contract::MockHook => InitMsgView::Empty,
        Contract::MockIsm => InitMsgView::Empty,
    }
}

impl Contract {
    /// The label under which this contract is instantiated.
    pub fn label(&self) -> (label: &'static str)
        ensures
            label@ == label_of(*self),
    {
        match self {
            Contract::Mailbox => "hpl_mailbox",
            Contract::Igp => "hpl_igp",
            Contract::IgpOracle => "hpl_igp_oracle",
            Contract::IsmRouting => "hpl_ism_routing",
            Contract::IsmMultisig => "hpl_ism_multisig",
            Contract::IsmAggregate => "hpl_ism_aggregate",
            Contract::HookMerkle => "hpl_hook_merkle",
            Contract::HookRouting => "hpl_hook_routing",
            Contract::ValidatorAnnounce => "hpl_validator_announce",
            Contract::MockReceiver => "hpl_test_mock_msg_receiver",
            Contract::MockHook => "hpl_test_mock_hook",
            Contract::MockIsm => "hpl_test_mock_ism",
        }
    }

    /// The contract at a position of the order, if the order is that long.
    pub fn at(position: usize) -> (contract: Option<Contract>)
        ensures
            contract == if position < CONTRACT_COUNT {
                Some(contract_at(position as int))
            } else {
                None
            },
    {
        match position {
            0 => Some(Contract::Mailbox),
            1 => Some(Contract::Igp),
            2 => Some(Contract::IgpOracle),
            3 => Some(Contract::IsmRouting),
            4 => Some(Contract::IsmMultisig),
            5 => Some(Contract::IsmAggregate),
            6 => Some(Contract::HookMerkle),
            7 => Some(Contract::HookRouting),
            8 => Some(Contract::ValidatorAnnounce),
            9 => Some(Contract::MockReceiver),
            10 => Some(Contract::MockHook),
            11 => Some(Contract::MockIsm),
            _ => None,
        }
    }
}

/// The mathematical state of a deployment in progress.
pub struct DeployPlanView {
    /// The address of the deployer.
    pub deployer: Seq<char>,
    /// The domain of the chain that is deployed to.
    pub domain: u32,
    /// The addresses of the contracts instantiated so far, in order.
    pub addresses: Seq<Seq<char>>,
}

impl DeployPlanView {
    /// The contract to instantiate next, with its label and message; `None`
    /// once all contracts are instantiated.
    pub open spec fn next(self) -> Option<(Contract, InitMsgView)> {
        if self.addresses.len() < CONTRACT_COUNT {
            let contract = contract_at(self.addresses.len() as int);
            Some((contract, init_msg_of(contract, self.deployer, self.domain, self.addresses)))
        } else {
            None
        }
    }
}

/// A deployment in progress.
pub struct DeployPlan {
    deployer: String,
    domain: u32,
    addresses: Vec<String>,
}

impl View for DeployPlan {
    type V = DeployPlanView;

    closed spec fn view(&self) -> DeployPlanView {
        DeployPlanView {
            deployer: self.deployer@,
            domain: self.domain,
            addresses: texts(self.addresses@),
        }
    }
}

impl DeployPlan {
    /// No more addresses are held than there are contracts.
    pub closed spec fn wf(self) -> bool {
        self.addresses@.len() <= CONTRACT_COUNT
    }

    /// The plan of a deployment by `deployer` to the chain of `domain`, with
    /// nothing instantiated yet.
    pub fn new(deployer: String, domain: u32) -> (plan: DeployPlan)
        ensures
            plan.wf(),
            plan@ == (DeployPlanView { deployer: deployer@, domain, addresses: Seq::empty() }),
    {
        let plan = DeployPlan { deployer, domain, addresses: Vec::new() };
        assert(texts(plan.addresses@) =~= Seq::<Seq<char>>::empty());
        plan
    }

    /// The contract to instantiate next and its message; `None` once all
    /// contracts are instantiated.
    pub fn next(&self) -> (step: Option<(Contract, InitMsg)>)
        requires
            self.wf(),
        ensures
            match (step, self@.next()) {
                (Some((contract, msg)), Some((expected, expected_msg))) => contract == expected
                    && msg@ == expected_msg,
                (None, None) => true,
                _ => false,
            },
    {
        let contract = match Contract::at(self.addresses.len()) {
            Some(contract) => contract,
            None => {
                return None;
            },
        };
        let ghost addresses = texts(self.addresses@);
        let msg = match contract {
            Contract::Mailbox => InitMsg::Mailbox {
                hrp: "osmo".to_owned(),
                owner: self.deployer.clone(),
                domain: self.domain,
            },
            Contract::Igp => InitMsg::Igp(
                GasOracleInitMsg {
                    hrp: "osmo".to_owned(),
                    owner: self.deployer.clone(),
                    gas_token: "uosmo".to_owned(),
                    beneficiary: self.deployer.clone(),
                    default_gas_usage: "25000".to_owned(),
                },
            ),
            Contract::IgpOracle => InitMsg::IgpOracle(
                IGPOracleInstantiateMsg { owner: self.deployer.clone() },
            ),
            Contract::IsmRouting => InitMsg::IsmRouting { owner: self.deployer.clone() },
            Contract::IsmMultisig => InitMsg::IsmMultisig(
                IsmMultisigInstantiateMsg { owner: self.deployer.clone() },
            ),
            Contract::IsmAggregate => {
                let mut isms: Vec<String> = Vec::new();
                isms.push(self.addresses[4].clone());
                assert(texts(isms@) =~= seq![addresses[4]]);
                InitMsg::IsmAggregate { owner: self.deployer.clone(), isms, threshold: 1 }
            },
            Contract::HookMerkle => InitMsg::HookMerkle {
                owner: self.deployer.clone(),
                mailbox: self.addresses[0].clone(),
            },
            Contract::HookRouting => InitMsg::HookRouting { owner: self.deployer.clone() },
            Contract::ValidatorAnnounce => InitMsg::ValidatorAnnounce {
                hrp: "osmo".to_owned(),
                mailbox: self.addresses[0].clone(),
            },
            Contract::MockReceiver => InitMsg::MockReceiver(
                TestMockMsgReceiverInstantiateMsg { hrp: "osmo".to_owned() },
            ),
            Contract::MockHook => InitMsg::Empty(EmptyMsg {  }),
            Contract::MockIsm => InitMsg::Empty(EmptyMsg {  }),
        };
        Some((contract, msg))
    }

    /// Takes note of the address of the contract that was instantiated
    /// last. Returns `false`, changing nothing, where all contracts had been
    /// instantiated already.
    pub fn record(&mut self, address: String) -> (noted: bool)
        requires
            old(self).wf(),
        ensures
            final(self).wf(),
            noted == (old(self)@.addresses.len() < CONTRACT_COUNT),
            noted ==> final(self)@ == (DeployPlanView {
                addresses: old(self)@.addresses.push(address@),
                ..old(self)@
            }),
            !noted ==> final(self)@ == old(self)@,
    {
        if self.addresses.len() >= CONTRACT_COUNT {
            return false;
        }
        self.addresses.push(address);
        assert(texts(self.addresses@) =~= texts(old(self).addresses@).push(address@));
        true
    }

    /// The addresses of all contracts, once all are instantiated.
    pub fn finish(&self) -> (deployments: Option<Deployments>)
        requires
            self.wf(),
        ensures
            deployments is Some == (self@.addresses.len() == CONTRACT_COUNT),
            match deployments {
                Some(d) => {
                    &&& d.mailbox@ == self@.addresses[0]
                    &&& d.igp@ == self@.addresses[1]
                    &&& d.igp_oracle@ == self@.addresses[2]
                    &&& d.ism_routing@ == self@.addresses[3]
                    &&& d.ism_multisig@ == self@.addresses[4]
                    &&& d.ism_aggregate@ == self@.addresses[5]
                    &&& d.hook_merkle@ == self@.addresses[6]
                    &&& d.hook_routing@ == self@.addresses[7]
                    &&& d.va@ == self@.addresses[8]
                    &&& d.mock_receiver@ == self@.addresses[9]
                    &&& d.mock_hook@ == self@.addresses[10]
                    &&& d.mock_ism@ == self@.addresses[11]
                },
                None => true,
            },
    {
        if self.addresses.len() != CONTRACT_COUNT {
            return None;
        }
        Some(
            Deployments {
                hook_merkle: self.addresses[6].clone(),
                hook_routing: self.addresses[7].clone(),
                igp: self.addresses[1].clone(),
                igp_oracle: self.addresses[2].clone(),
                ism_aggregate: self.addresses[5].clone(),
                ism_routing: self.addresses[3].clone(),
                ism_multisig: self.addresses[4].clone(),
                mailbox: self.addresses[0].clone(),
                mock_receiver: self.addresses[9].clone(),
                mock_hook: self.addresses[10].clone(),
                mock_ism: self.addresses[11].clone(),
                va: self.addresses[8].clone(),
            },
        )
    }
}

} // verus!
