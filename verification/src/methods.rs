//! The methods that a request can call.
use crate::handler::Features;
use crate::text::same_text;
use vstd::prelude::*;

verus! {

/// A method that every node offers, or that a node that runs alone offers.
#[derive(Clone, Copy, Debug, PartialEq, Eq)]
pub enum BasicMethod {
    Block,
    BroadcastTxAsync,
    BroadcastTxCommit,
    Chunk,
    GasPrice,
    Health,
    LightClientProof,
    NextLightClientBlock,
    NetworkInfo,
    SendTx,
    Status,
    Tx,
    Validators,
    ClientConfig,
    ExperimentalChanges,
    ExperimentalChangesInBlock,
    ExperimentalGenesisConfig,
    ExperimentalLightClientProof,
    ExperimentalProtocolConfig,
    ExperimentalReceipt,
    ExperimentalTxStatus,
    ExperimentalValidatorsOrdered,
    ExperimentalMaintenanceWindows,
    ExperimentalSplitStorageInfo,
    SandboxPatchState,
    SandboxFastForward,
    Provider,
}

/// A method that makes a node misbehave.
#[derive(Clone, Copy, Debug, PartialEq, Eq)]
pub enum AdversarialMethod {
    DisableHeaderSync,
    DisableDoomslug,
    ProduceBlocks,
    SwitchToHeight,
    GetSavedBlocks,
    CheckStore,
}

/// A method.
#[derive(Clone, Copy, Debug, PartialEq, Eq)]
pub enum Method {
    Basic(BasicMethod),
    Adversarial(AdversarialMethod),
    Query,
}

impl BasicMethod {
    /// The name that a request calls the method by.
    pub open spec fn name(self) -> Seq<char> {
        match self {
            BasicMethod::Block => "block"@,
            BasicMethod::BroadcastTxAsync => "broadcast_tx_async"@,
            BasicMethod::BroadcastTxCommit => "broadcast_tx_commit"@,
            BasicMethod::Chunk => "chunk"@,
            BasicMethod::GasPrice => "gas_price"@,
            BasicMethod::Health => "health"@,
            BasicMethod::LightClientProof => "light_client_proof"@,
            BasicMethod::NextLightClientBlock => "next_light_client_block"@,
            BasicMethod::NetworkInfo => "network_info"@,
            BasicMethod::SendTx => "send_tx"@,
            BasicMethod::Status => "status"@,
            BasicMethod::Tx => "tx"@,
            BasicMethod::Validators => "validators"@,
            BasicMethod::ClientConfig => "client_config"@,
            BasicMethod::ExperimentalChanges => "EXPERIMENTAL_changes"@,
            BasicMethod::ExperimentalChangesInBlock => "EXPERIMENTAL_changes_in_block"@,
            BasicMethod::ExperimentalGenesisConfig => "EXPERIMENTAL_genesis_config"@,
            BasicMethod::ExperimentalLightClientProof => "EXPERIMENTAL_light_client_proof"@,
            BasicMethod::ExperimentalProtocolConfig => "EXPERIMENTAL_protocol_config"@,
            BasicMethod::ExperimentalReceipt => "EXPERIMENTAL_receipt"@,
            BasicMethod::ExperimentalTxStatus => "EXPERIMENTAL_tx_status"@,
            BasicMethod::ExperimentalValidatorsOrdered => "EXPERIMENTAL_validators_ordered"@,
            BasicMethod::ExperimentalMaintenanceWindows => "EXPERIMENTAL_maintenance_windows"@,
            BasicMethod::ExperimentalSplitStorageInfo => "EXPERIMENTAL_split_storage_info"@,
            BasicMethod::SandboxPatchState => "sandbox_patch_state"@,
            BasicMethod::SandboxFastForward => "sandbox_fast_forward"@,
            BasicMethod::Provider => "provider"@,
        }
    }

    /// The method of that name, if there is one.
    pub fn of_name(name: &String) -> (method: Option<BasicMethod>)
        ensures
            match method {
                Some(method) => method.name() == name@,
                None => forall|method: BasicMethod| #[trigger] method.name() != name@,
            },
    {
        if same_text(name, "block") {
            Some(BasicMethod::Block)
        } else if same_text(name, "broadcast_tx_async") {
            Some(BasicMethod::BroadcastTxAsync)
        } else if same_text(name, "broadcast_tx_commit") {
            Some(BasicMethod::BroadcastTxCommit)
        } else if same_text(name, "chunk") {
            Some(BasicMethod::Chunk)
        } else if same_text(name, "gas_price") {
            Some(BasicMethod::GasPrice)
        } else if same_text(name, "health") {
            Some(BasicMethod::Health)
        } else if same_text(name, "light_client_proof") {
            Some(BasicMethod::LightClientProof)
        } else if same_text(name, "next_light_client_block") {
            Some(BasicMethod::NextLightClientBlock)
        } else if same_text(name, "network_info") {
            Some(BasicMethod::NetworkInfo)
        } else if same_text(name, "send_tx") {
            Some(BasicMethod::SendTx)
        } else if same_text(name, "status") {
            Some(BasicMethod::Status)
        } else if same_text(name, "tx") {
            Some(BasicMethod::Tx)
        } else if same_text(name, "validators") {
            Some(BasicMethod::Validators)
        } else if same_text(name, "client_config") {
            Some(BasicMethod::ClientConfig)
        } else if same_text(name, "EXPERIMENTAL_changes") {
            Some(BasicMethod::ExperimentalChanges)
        } else if same_text(name, "EXPERIMENTAL_changes_in_block") {
            Some(BasicMethod::ExperimentalChangesInBlock)
        } else if same_text(name, "EXPERIMENTAL_genesis_config") {
            Some(BasicMethod::ExperimentalGenesisConfig)
        } else if same_text(name, "EXPERIMENTAL_light_client_proof") {
            Some(BasicMethod::ExperimentalLightClientProof)
        } else if same_text(name, "EXPERIMENTAL_protocol_config") {
            Some(BasicMethod::ExperimentalProtocolConfig)
        } else if same_text(name, "EXPERIMENTAL_receipt") {
            Some(BasicMethod::ExperimentalReceipt)
        } else if same_text(name, "EXPERIMENTAL_tx_status") {
            Some(BasicMethod::ExperimentalTxStatus)
        } else if same_text(name, "EXPERIMENTAL_validators_ordered") {
            Some(BasicMethod::ExperimentalValidatorsOrdered)
        } else if same_text(name, "EXPERIMENTAL_maintenance_windows") {
            Some(BasicMethod::ExperimentalMaintenanceWindows)
        } else if same_text(name, "EXPERIMENTAL_split_storage_info") {
            Some(BasicMethod::ExperimentalSplitStorageInfo)
        } else if same_text(name, "sandbox_patch_state") {
            Some(BasicMethod::SandboxPatchState)
        } else if same_text(name, "sandbox_fast_forward") {
            Some(BasicMethod::SandboxFastForward)
        } else if same_text(name, "provider") {
            Some(BasicMethod::Provider)
        } else {
            None
        }
    }

    /// Whether only a node that runs alone offers the method.
    pub open spec fn spec_is_sandbox(self) -> bool {
        self is SandboxPatchState || self is SandboxFastForward
    }

    /// Whether only a node that runs alone offers the method.
    pub fn is_sandbox(&self) -> (sandbox: bool)
        ensures
            sandbox == self.spec_is_sandbox(),
    {
        match self {
            BasicMethod::SandboxPatchState | BasicMethod::SandboxFastForward => true,
            _ => false,
        }
    }
}

impl AdversarialMethod {
    /// The name that a request calls the method by.
    pub open spec fn name(self) -> Seq<char> {
        match self {
            AdversarialMethod::DisableHeaderSync => "adv_disable_header_sync"@,
            AdversarialMethod::DisableDoomslug => "adv_disable_doomslug"@,
            AdversarialMethod::ProduceBlocks => "adv_produce_blocks"@,
            AdversarialMethod::SwitchToHeight => "adv_switch_to_height"@,
            AdversarialMethod::GetSavedBlocks => "adv_get_saved_blocks"@,
            AdversarialMethod::CheckStore => "adv_check_store"@,
        }
    }

    /// The method of that name, if there is one.
    pub fn of_name(name: &String) -> (method: Option<AdversarialMethod>)
        ensures
            match method {
                Some(method) => method.name() == name@,
                None => forall|method: AdversarialMethod| #[trigger] method.name() != name@,
            },
    {
        if same_text(name, "adv_disable_header_sync") {
            Some(AdversarialMethod::DisableHeaderSync)
        } else if same_text(name, "adv_disable_doomslug") {
            Some(AdversarialMethod::DisableDoomslug)
        } else if same_text(name, "adv_produce_blocks") {
            Some(AdversarialMethod::ProduceBlocks)
        } else if same_text(name, "adv_switch_to_height") {
            Some(AdversarialMethod::SwitchToHeight)
        } else if same_text(name, "adv_get_saved_blocks") {
            Some(AdversarialMethod::GetSavedBlocks)
        } else if same_text(name, "adv_check_store") {
            Some(AdversarialMethod::CheckStore)
        } else {
            None
        }
    }
}

impl Method {
    /// The name that a request calls the method by.
    pub open spec fn name(self) -> Seq<char> {
        match self {
            Method::Basic(method) => method.name(),
            Method::Adversarial(method) => method.name(),
            Method::Query => "query"@,
        }
    }

    /// Whether a node with these features offers the method.
    pub open spec fn is_offered(self, features: Features) -> bool {
        match self {
            Method::Basic(method) => method.spec_is_sandbox() ==> features.sandbox,
            Method::Adversarial(_) => features.test_features,
            Method::Query => true,
        }
    }
}

/// The length of each name, its first character, and one further in where it is that long.
proof fn lemma_basic_marks(method: BasicMethod)
    ensures
        match method {
            BasicMethod::Block => method.name().len() == 5 && method.name()[0] == 'b',
            BasicMethod::BroadcastTxAsync => method.name().len() == 18 && method.name()[0] == 'b'
                && method.name()[14] == 's',
            BasicMethod::BroadcastTxCommit => method.name().len() == 19 && method.name()[0] == 'b'
                && method.name()[14] == 'o',
            BasicMethod::Chunk => method.name().len() == 5 && method.name()[0] == 'c',
            BasicMethod::GasPrice => method.name().len() == 9 && method.name()[0] == 'g',
            BasicMethod::Health => method.name().len() == 6 && method.name()[0] == 'h',
            BasicMethod::LightClientProof => method.name().len() == 18 && method.name()[0] == 'l'
                && method.name()[14] == 'r',
            BasicMethod::NextLightClientBlock => method.name().len() == 23 && method.name()[0] == 'n'
                && method.name()[14] == 'e',
            BasicMethod::NetworkInfo => method.name().len() == 12 && method.name()[0] == 'n',
            BasicMethod::SendTx => method.name().len() == 7 && method.name()[0] == 's',
            BasicMethod::Status => method.name().len() == 6 && method.name()[0] == 's',
            BasicMethod::Tx => method.name().len() == 2 && method.name()[0] == 't',
            BasicMethod::Validators => method.name().len() == 10 && method.name()[0] == 'v',
            BasicMethod::ClientConfig => method.name().len() == 13 && method.name()[0] == 'c',
            BasicMethod::ExperimentalChanges => method.name().len() == 20 && method.name()[0] == 'E'
                && method.name()[14] == 'h',
            BasicMethod::ExperimentalChangesInBlock => method.name().len() == 29 && method.name()[0] == 'E'
                && method.name()[14] == 'h',
            BasicMethod::ExperimentalGenesisConfig => method.name().len() == 27 && method.name()[0] == 'E'
                && method.name()[14] == 'e',
            BasicMethod::ExperimentalLightClientProof => method.name().len() == 31 && method.name()[0] == 'E'
                && method.name()[14] == 'i',
            BasicMethod::ExperimentalProtocolConfig => method.name().len() == 28 && method.name()[0] == 'E'
                && method.name()[14] == 'r',
            BasicMethod::ExperimentalReceipt => method.name().len() == 20 && method.name()[0] == 'E'
                && method.name()[14] == 'e',
            BasicMethod::ExperimentalTxStatus => method.name().len() == 22 && method.name()[0] == 'E'
                && method.name()[14] == 'x',
            BasicMethod::ExperimentalValidatorsOrdered => method.name().len() == 31 && method.name()[0] == 'E'
                && method.name()[14] == 'a',
            BasicMethod::ExperimentalMaintenanceWindows => method.name().len() == 32 && method.name()[0] == 'E'
                && method.name()[14] == 'a',
            BasicMethod::ExperimentalSplitStorageInfo => method.name().len() == 31 && method.name()[0] == 'E'
                && method.name()[14] == 'p',
            BasicMethod::SandboxPatchState => method.name().len() == 19 && method.name()[0] == 's'
                && method.name()[14] == 's',
            BasicMethod::SandboxFastForward => method.name().len() == 20 && method.name()[0] == 's'
                && method.name()[14] == 'o',
            BasicMethod::Provider => method.name().len() == 8 && method.name()[0] == 'p',
        },
{
    match method {
        BasicMethod::Block => {
            reveal_strlit("block");
        },
        BasicMethod::BroadcastTxAsync => {
            reveal_strlit("broadcast_tx_async");
        },
        BasicMethod::BroadcastTxCommit => {
            reveal_strlit("broadcast_tx_commit");
        },
        BasicMethod::Chunk => {
            reveal_strlit("chunk");
        },
        BasicMethod::GasPrice => {
            reveal_strlit("gas_price");
        },
        BasicMethod::Health => {
            reveal_strlit("health");
        },
        BasicMethod::LightClientProof => {
            reveal_strlit("light_client_proof");
        },
        BasicMethod::NextLightClientBlock => {
            reveal_strlit("next_light_client_block");
        },
        BasicMethod::NetworkInfo => {
            reveal_strlit("network_info");
        },
        BasicMethod::SendTx => {
            reveal_strlit("send_tx");
        },
        BasicMethod::Status => {
            reveal_strlit("status");
        },
        BasicMethod::Tx => {
            reveal_strlit("tx");
        },
        BasicMethod::Validators => {
            reveal_strlit("validators");
        },
        BasicMethod::ClientConfig => {
            reveal_strlit("client_config");
        },
        BasicMethod::ExperimentalChanges => {
            reveal_strlit("EXPERIMENTAL_changes");
        },
        BasicMethod::ExperimentalChangesInBlock => {
            reveal_strlit("EXPERIMENTAL_changes_in_block");
        },
        BasicMethod::ExperimentalGenesisConfig => {
            reveal_strlit("EXPERIMENTAL_genesis_config");
        },
        BasicMethod::ExperimentalLightClientProof => {
            reveal_strlit("EXPERIMENTAL_light_client_proof");
        },
        BasicMethod::ExperimentalProtocolConfig => {
            reveal_strlit("EXPERIMENTAL_protocol_config");
        },
        BasicMethod::ExperimentalReceipt => {
            reveal_strlit("EXPERIMENTAL_receipt");
        },
        BasicMethod::ExperimentalTxStatus => {
            reveal_strlit("EXPERIMENTAL_tx_status");
        },
        BasicMethod::ExperimentalValidatorsOrdered => {
            reveal_strlit("EXPERIMENTAL_validators_ordered");
        },
        BasicMethod::ExperimentalMaintenanceWindows => {
            reveal_strlit("EXPERIMENTAL_maintenance_windows");
        },
        BasicMethod::ExperimentalSplitStorageInfo => {
            reveal_strlit("EXPERIMENTAL_split_storage_info");
        },
        BasicMethod::SandboxPatchState => {
            reveal_strlit("sandbox_patch_state");
        },
        BasicMethod::SandboxFastForward => {
            reveal_strlit("sandbox_fast_forward");
        },
        BasicMethod::Provider => {
            reveal_strlit("provider");
        },
    }
}

/// The length of each name, its first character, and one further in where it is that long.
proof fn lemma_adversarial_marks(method: AdversarialMethod)
    ensures
        match method {
            AdversarialMethod::DisableHeaderSync => method.name().len() == 23 && method.name()[0] == 'a'
                && method.name()[14] == 'a',
            AdversarialMethod::DisableDoomslug => method.name().len() == 20 && method.name()[0] == 'a'
                && method.name()[14] == 'o',
            AdversarialMethod::ProduceBlocks => method.name().len() == 18 && method.name()[0] == 'a'
                && method.name()[14] == 'o',
            AdversarialMethod::SwitchToHeight => method.name().len() == 20 && method.name()[0] == 'a'
                && method.name()[14] == 'h',
            AdversarialMethod::GetSavedBlocks => method.name().len() == 20 && method.name()[0] == 'a'
                && method.name()[14] == 'b',
            AdversarialMethod::CheckStore => method.name().len() == 15 && method.name()[0] == 'a'
                && method.name()[14] == 'e',
        },
{
    match method {
        AdversarialMethod::DisableHeaderSync => {
            reveal_strlit("adv_disable_header_sync");
        },
        AdversarialMethod::DisableDoomslug => {
            reveal_strlit("adv_disable_doomslug");
        },
        AdversarialMethod::ProduceBlocks => {
            reveal_strlit("adv_produce_blocks");
        },
        AdversarialMethod::SwitchToHeight => {
            reveal_strlit("adv_switch_to_height");
        },
        AdversarialMethod::GetSavedBlocks => {
            reveal_strlit("adv_get_saved_blocks");
        },
        AdversarialMethod::CheckStore => {
            reveal_strlit("adv_check_store");
        },
    }
}

/// No two methods have the same name.
pub proof fn law_names_are_distinct(one: Method, other: Method)
    requires
        one.name() == other.name(),
    ensures
        one == other,
{
    reveal_strlit("query");
    match one {
        Method::Basic(method) => {
            lemma_basic_marks(method);
        },
        Method::Adversarial(method) => {
            lemma_adversarial_marks(method);
        },
        Method::Query => {},
    }
    match other {
        Method::Basic(method) => {
            lemma_basic_marks(method);
        },
        Method::Adversarial(method) => {
            lemma_adversarial_marks(method);
        },
        Method::Query => {},
    }
}

} // verus!
