//! The operator commands of the wallet, as decisions.
//!
//! A command never touches the wallet, a node or a file itself. It says
//! which calls are to be made, in which order and with which switches, and
//! what a failure of each call is reported as. The caller makes the calls,
//! stops at the first one that fails, and asks [`Step::fail`] for the error
//! to report. Where a command's course depends on what a call returned, the
//! command takes that result as an argument.

use vstd::prelude::*;
use crate::types::{str_eq, Uuid};

verus! {

/// Chain configurations a wallet can be started for.
#[derive(Clone, Copy, Debug, PartialEq, Eq, Structural)]
pub enum ChainTypes {
    /// Chain for automated tests.
    AutomatedTesting,
    /// Chain for manual tests.
    UserTesting,
    /// The public test network.
    Floonet,
    /// The production network.
    Mainnet,
}

/// Certificate and key of a TLS endpoint.
#[derive(Clone, Debug, PartialEq, Eq)]
pub struct TlsConfig {
    /// Path of the certificate chain.
    pub certificate: String,
    /// Path of the private key.
    pub private_key: String,
}

/// The part of the wallet configuration that the commands read.
#[derive(Clone, Debug, PartialEq, Eq)]
pub struct WalletConfig {
    /// Whether the owner API also starts the message queue listener.
    pub owner_api_include_mqs_listener: Option<bool>,
    /// Whether the owner API also starts the keybase listener.
    pub owner_api_include_keybase_listener: Option<bool>,
    /// Whether the owner API also serves the foreign API.
    pub owner_api_include_foreign: Option<bool>,
}

/// Settings of the onion transport.
#[derive(Clone, Debug, PartialEq, Eq)]
pub struct TorConfig {
    /// Whether the HTTP listener is also published as an onion service.
    pub use_tor_listener: bool,
    /// Address of the SOCKS proxy.
    pub socks_proxy_addr: String,
}

/// Settings of the message queue transport.
#[derive(Clone, Debug, PartialEq, Eq)]
pub struct MqsConfig {
    /// Host of the broker.
    pub mwcmqs_domain: String,
    /// Port of the broker.
    pub mwcmqs_port: u16,
}

/// Arguments common to all wallet commands
#[derive(Clone, Debug, PartialEq, Eq)]
pub struct GlobalArgs {
    pub account: String,
    pub api_secret: Option<String>,
    pub node_api_secret: Option<String>,
    pub show_spent: bool,
    pub chain_type: ChainTypes,
    pub password: Option<String>,
    pub tls_conf: Option<TlsConfig>,
}

/// Which of the wallet's two interfaces a call goes to.
#[derive(Clone, Copy, Debug, PartialEq, Eq, Structural)]
pub enum Api {
    /// The interface of the wallet's owner.
    Owner,
    /// The interface open to other parties.
    Foreign,
}

/// What the locked outputs of a transaction are labelled with.
#[derive(Clone, Copy, Debug, PartialEq, Eq, Structural)]
pub enum Label {
    /// The literal `file`.
    File,
    /// The literal `self`.
    Own,
    /// The command's destination.
    Destination,
}

/// Where a transaction draft is written.
#[derive(Clone, Copy, Debug, PartialEq, Eq, Structural)]
pub enum Target {
    /// The command's destination.
    Destination,
    /// The command's input path with `.response` appended.
    Response,
}

/// A coin selection strategy.
#[derive(Clone, Copy, Debug, PartialEq, Eq, Structural)]
pub enum Strategy {
    /// Spend the smallest outputs that cover the amount.
    Smallest,
    /// Spend all outputs.
    All,
}

/// Which of the three listeners is meant.
#[derive(Clone, Copy, Debug, PartialEq, Eq, Structural)]
pub enum Listener {
    /// The HTTP listener of the foreign API, in a thread of its own.
    Http,
    /// The keybase listener.
    Keybase,
    /// The message queue listener.
    Mqs,
}

/// One call that a command asks for. Strings that a call needs are taken
/// from the command's arguments; a transaction draft that one call returns
/// is what the next one works on.
#[derive(Clone, Copy, Debug, PartialEq, Eq, Structural)]
pub enum Call {
    /// Write the default configuration for the chain type.
    CreateConfig { chain_type: ChainTypes },
    /// Create the wallet seed, from the recovery phrase if there is one.
    CreateWallet { list_length: usize },
    /// Read the recovery phrase back.
    GetMnemonic,
    /// Print the recovery phrase.
    ShowRecoveryPhrase,
    /// Start a listener; `wait` asks to stay with it until it ends.
    StartListener { listener: Listener, wait: bool },
    /// Start the owner API listener.
    StartOwnerListener { include_foreign: Option<bool> },
    /// Do nothing for a while.
    Pause { millis: u64 },
    /// List the accounts.
    ListAccounts,
    /// Print the accounts that were listed.
    ShowAccounts,
    /// Create the account that the arguments name.
    CreateAccount,
    /// Start a transaction for the arguments' amount.
    InitSend { strategy: Strategy, estimate_only: bool },
    /// Print the estimates gathered so far.
    ShowEstimate,
    /// Read the draft at the command's input path.
    ReadSlate,
    /// Write the draft.
    WriteSlate { target: Target },
    /// Check the participants' messages of the draft.
    VerifyMessages { api: Api },
    /// Lock the outputs that the draft spends.
    LockOutputs { label: Label, participant_id: u32 },
    /// Let this wallet receive the draft.
    ReceiveTx { label: Label },
    /// Hand the draft to the destination and take its answer.
    SendSlate,
    /// Give the answer the time-to-live of the draft that was sent.
    RestoreTtl,
    /// Compare the answer with the draft that was sent.
    CompareSlates,
    /// Complete the draft.
    Finalize { api: Api },
    /// Issue an invoice.
    IssueInvoice,
    /// Pay the invoice in the draft.
    ProcessInvoice { strategy: Strategy },
    /// Post the draft's transaction to the chain.
    PostTx { fluff: bool },
    /// Load the stored transaction at the command's input path.
    LoadStoredTx,
    /// Summarise the wallet and print the summary.
    ShowInfo { minimum_confirmations: u64 },
    /// Ask the node for the height of the chain.
    NodeHeight,
    /// List outputs and print them.
    ShowOutputs { include_spent: bool, refresh: bool, tx_id: Option<u32> },
    /// List transactions.
    RetrieveTxs { id: Option<u32>, tx_slate_id: Option<Uuid> },
    /// Print the listed transactions.
    ShowTxs { include_status: bool },
    /// Print messages and payment proof of each listed transaction.
    ShowTxDetails,
    /// Fetch the stored transaction of the first listed one.
    GetStoredTx,
    /// Create the dump file.
    CreateDump,
    /// Write the stored transaction as JSON.
    EncodeStoredTx,
    /// Write the JSON to the dump file and flush it.
    SaveDump,
    /// Cancel a transaction.
    CancelTx { tx_id: Option<u32>, tx_slate_id: Option<Uuid> },
    /// Scan the chain for the wallet's outputs.
    Scan { start_height: u64, delete_unconfirmed: bool },
    /// Print the payment proof address at a derivation index.
    ShowAddress { index: u32 },
    /// Fetch a payment proof.
    RetrieveProof { id: Option<u32>, tx_slate_id: Option<Uuid> },
    /// Create the output file of the payment proof.
    CreateProofFile,
    /// Write the payment proof to the output file.
    WriteProof,
    /// Flush the output file.
    SyncProofFile,
    /// Open the input file of the payment proof.
    OpenProof,
    /// Read the input file.
    ReadProof,
    /// Read the payment proof out of the text.
    ParseProof,
    /// Check the payment proof.
    VerifyProof,
    /// Write the wallet's data to the log or to a file.
    DumpWalletData,
    /// Check that the destination is an address of the transport.
    ValidateDestination { listener: Listener },
    /// Check that the listener runs.
    RequireListener { listener: Listener },
    /// Make the sender that reaches the destination by the transport.
    CreateSender,
    /// Hand a swap message to the destination and take the acknowledgement.
    SendMessage,
    /// Write a swap message to the destination file.
    WriteMessage,
}

/// What the failure of a call is reported under.
#[derive(Clone, Copy, Debug, PartialEq, Eq, Structural)]
pub enum Context {
    StartListener,
    ListAccounts,
    CreateAccount,
    CreateSlate,
    StoreSlate,
    ValidateMessages,
    PostSlate,
    ProcessInvoice,
    CancelTx,
    WalletCheck,
    RetrieveProof,
    CreateFile,
    SaveProof,
    SaveFile,
    ConvertTx,
    OpenProof,
    ReadProof,
    ParseProof,
    ProofInvalid,
    DataDump,
    CreateDump,
    SaveDump,
    StartMqs,
    InvalidDestination,
    MqsNotRunning,
    TorNotRunning,
    CreateSender,
    DeliverMessage,
    StoreMessage,
    ListSwaps,
    DeleteSwap,
    AdjustSwap,
    RetrieveSwap,
    ProcessSwap,
    DumpSwap,
    StartSwap,
    CreateSwap,
}

/// The argument that the message of a failure names.
#[derive(Clone, Copy, Debug, PartialEq, Eq, Structural)]
pub enum Detail {
    /// No argument.
    Nothing,
    /// The destination.
    Destination,
    /// The account to create.
    NewAccount,
    /// The transaction as the operator wrote it.
    Transaction,
    /// The output file.
    OutputFile,
    /// The input file.
    InputFile,
    /// The dump file.
    DumpFile,
    /// The identifier of the trade.
    SwapId,
}

/// How the failure of a call is reported.
#[derive(Clone, Copy, Debug, PartialEq, Eq, Structural)]
pub enum Failure {
    /// The cause is handed on as it is.
    Propagate,
    /// Reported as a listener failure, without the cause.
    Listener,
    /// Reported as a wallet failure.
    LibWallet(Context),
    /// Reported as a general failure.
    Generic(Context),
    /// Reported as a file failure.
    Io(Context),
    /// Reported as a wrong argument.
    Argument(Context),
    /// Reported as a failure of the swap.
    Swap(Context),
}

/// A call together with the way its failure is reported.
#[derive(Clone, Copy, Debug, PartialEq, Eq, Structural)]
pub struct Step {
    pub call: Call,
    pub failure: Failure,
}

/// What a command asks for: calls to make in order and, where the command
/// cannot go on after them, the error that it ends with.
#[derive(Debug, PartialEq, Eq)]
pub struct Plan {
    /// The calls, first to last.
    pub steps: Vec<Step>,
    /// The error to report once the calls are made; `None` where the command
    /// then ends well.
    pub end: Option<CommandError>,
}

/// The error of a command.
#[derive(Debug, PartialEq, Eq)]
pub enum CommandError {
    /// A listener could not be started.
    ListenerError,
    /// An argument is missing or wrong.
    ArgumentError(String),
    /// The wallet refused or failed.
    LibWallet(String),
    /// Anything else.
    GenericError(String),
    /// A file could not be written or read.
    IO(String),
    /// The message queue is not configured.
    MQSConfig(String),
    /// A failure of a call, handed on as it came.
    Wallet(String),
    /// A step of a swap failed.
    SwapError(String),
}

/// The text that goes before the detail of a failure.
pub open spec fn context_head(c: Context) -> Seq<char> {
    match c {
        Context::StartListener => "Unable to start Listener"@,
        Context::ListAccounts => "Error listing accounts"@,
        Context::CreateAccount => "Error creating account '"@,
        Context::CreateSlate => "Unable to create send slate "@,
        Context::StoreSlate => "Unable to store the file at "@,
        Context::ValidateMessages => "Unable to validate slate messages"@,
        Context::PostSlate => "Unable to post slate"@,
        Context::ProcessInvoice => "Unable to process invoice"@,
        Context::CancelTx => "Unable to cancel Transaction "@,
        Context::WalletCheck => "Wallet check failed"@,
        Context::RetrieveProof => "Unable to retrieve payment proof"@,
        Context::CreateFile => "Unable to create file "@,
        Context::SaveProof => "Unable to save the proof file "@,
        Context::SaveFile => "Unable to save file "@,
        Context::ConvertTx => "Unable convert Tx to Json"@,
        Context::OpenProof => "Unable to open payment proof file at "@,
        Context::ReadProof => "Unable to read proof data"@,
        Context::ParseProof => ""@,
        Context::ProofInvalid => "Proof not valid"@,
        Context::DataDump => "Wallet Data dump failed"@,
        Context::CreateDump => "Unable to create tx dump file "@,
        Context::SaveDump => "Unable to save tx to the file "@,
        Context::StartMqs => "Unable to start mwcmqs listener"@,
        Context::InvalidDestination => "Invalid destination address"@,
        Context::MqsNotRunning =>
            "mqcmqs listener is not running. Please start it with 'listen' command or '--start_listener' argument"@,
        Context::TorNotRunning =>
            "tor listener is not running. Please start it with 'listen' command or '--start_listener' argument"@,
        Context::CreateSender => "Unable to create message sender"@,
        Context::DeliverMessage => "Unable to deliver the message"@,
        Context::StoreMessage => "Unable to store message data to the destination file"@,
        Context::ListSwaps => "Unable to List Swap trades"@,
        Context::DeleteSwap => "Unable to delete Swap "@,
        Context::AdjustSwap => "Unable to adjust Swap "@,
        Context::RetrieveSwap => "Unable to retrieve Swap "@,
        Context::ProcessSwap => "Unable to process Swap "@,
        Context::DumpSwap => "Unable to dump the content of the swap file "@,
        Context::StartSwap => "Unable to start Swap trade"@,
        Context::CreateSwap => "Unable to create a Swap trade from message "@,
    }
}

/// The text that stands between the detail of a failure and its cause.
pub open spec fn context_joint(c: Context) -> Seq<char> {
    match c {
        Context::ListAccounts | Context::OpenProof | Context::ProofInvalid | Context::ListSwaps
        | Context::DeleteSwap | Context::AdjustSwap | Context::RetrieveSwap | Context::ProcessSwap
        | Context::StartSwap | Context::CreateSwap => ": "@,
        Context::DumpSwap => ".swap: "@,
        Context::CreateAccount => "': "@,
        Context::ParseProof | Context::MqsNotRunning | Context::TorNotRunning => ""@,
        _ => ", "@,
    }
}

/// The argument that the message under a context names.
pub open spec fn detail_spec(c: Context) -> Detail {
    match c {
        Context::CreateAccount => Detail::NewAccount,
        Context::StoreSlate => Detail::Destination,
        Context::CancelTx => Detail::Transaction,
        Context::CreateFile | Context::SaveProof | Context::SaveFile => Detail::OutputFile,
        Context::OpenProof | Context::CreateSwap => Detail::InputFile,
        Context::CreateDump | Context::SaveDump => Detail::DumpFile,
        Context::DeleteSwap | Context::AdjustSwap | Context::RetrieveSwap | Context::ProcessSwap
        | Context::DumpSwap => Detail::SwapId,
        _ => Detail::Nothing,
    }
}

/// The argument that the message under a context names.
#[verifier::when_used_as_spec(detail_spec)]
pub fn detail_of(c: Context) -> (d: Detail)
    ensures
        d == detail_spec(c),
{
    match c {
        Context::CreateAccount => Detail::NewAccount,
        Context::StoreSlate => Detail::Destination,
        Context::CancelTx => Detail::Transaction,
        Context::CreateFile | Context::SaveProof | Context::SaveFile => Detail::OutputFile,
        Context::OpenProof | Context::CreateSwap => Detail::InputFile,
        Context::CreateDump | Context::SaveDump => Detail::DumpFile,
        Context::DeleteSwap | Context::AdjustSwap | Context::RetrieveSwap | Context::ProcessSwap
        | Context::DumpSwap => Detail::SwapId,
        _ => Detail::Nothing,
    }
}

/// The message of a failure: head, detail, joint and cause in a row.
pub open spec fn message_spec(c: Context, detail: Seq<char>, cause: Seq<char>) -> Seq<char> {
    context_head(c) + detail + context_joint(c) + cause
}

fn head_text(c: Context) -> (s: &'static str)
    ensures
        s@ == context_head(c),
{
    match c {
        Context::StartListener => "Unable to start Listener",
        Context::ListAccounts => "Error listing accounts",
        Context::CreateAccount => "Error creating account '",
        Context::CreateSlate => "Unable to create send slate ",
        Context::StoreSlate => "Unable to store the file at ",
        Context::ValidateMessages => "Unable to validate slate messages",
        Context::PostSlate => "Unable to post slate",
        Context::ProcessInvoice => "Unable to process invoice",
        Context::CancelTx => "Unable to cancel Transaction ",
        Context::WalletCheck => "Wallet check failed",
        Context::RetrieveProof => "Unable to retrieve payment proof",
        Context::CreateFile => "Unable to create file ",
        Context::SaveProof => "Unable to save the proof file ",
        Context::SaveFile => "Unable to save file ",
        Context::ConvertTx => "Unable convert Tx to Json",
        Context::OpenProof => "Unable to open payment proof file at ",
        Context::ReadProof => "Unable to read proof data",
        Context::ParseProof => "",
        Context::ProofInvalid => "Proof not valid",
        Context::DataDump => "Wallet Data dump failed",
        Context::CreateDump => "Unable to create tx dump file ",
        Context::SaveDump => "Unable to save tx to the file ",
        Context::StartMqs => "Unable to start mwcmqs listener",
        Context::InvalidDestination => "Invalid destination address",
        Context::MqsNotRunning =>
            "mqcmqs listener is not running. Please start it with 'listen' command or '--start_listener' argument",
        Context::TorNotRunning =>
            "tor listener is not running. Please start it with 'listen' command or '--start_listener' argument",
        Context::CreateSender => "Unable to create message sender",
        Context::DeliverMessage => "Unable to deliver the message",
        Context::StoreMessage => "Unable to store message data to the destination file",
        Context::ListSwaps => "Unable to List Swap trades",
        Context::DeleteSwap => "Unable to delete Swap ",
        Context::AdjustSwap => "Unable to adjust Swap ",
        Context::RetrieveSwap => "Unable to retrieve Swap ",
        Context::ProcessSwap => "Unable to process Swap ",
        Context::DumpSwap => "Unable to dump the content of the swap file ",
        Context::StartSwap => "Unable to start Swap trade",
        Context::CreateSwap => "Unable to create a Swap trade from message ",
    }
}

fn joint_text(c: Context) -> (s: &'static str)
    ensures
        s@ == context_joint(c),
{
    match c {
        Context::ListAccounts => ": ",
        Context::OpenProof => ": ",
        Context::ProofInvalid => ": ",
        Context::ListSwaps => ": ",
        Context::DeleteSwap => ": ",
        Context::AdjustSwap => ": ",
        Context::RetrieveSwap => ": ",
        Context::ProcessSwap => ": ",
        Context::StartSwap => ": ",
        Context::CreateSwap => ": ",
        Context::DumpSwap => ".swap: ",
        Context::CreateAccount => "': ",
        Context::ParseProof => "",
        Context::MqsNotRunning => "",
        Context::TorNotRunning => "",
        _ => ", ",
    }
}

/// Writes the message of a failure.
pub fn message(c: Context, detail: &str, cause: &str) -> (s: String)
    ensures
        s@ == message_spec(c, detail@, cause@),
{
    String::from_str(head_text(c)).concat(detail).concat(joint_text(c)).concat(cause)
}

impl Failure {
    /// The context that the failure is reported under, if it has one.
    pub fn context(&self) -> (c: Option<Context>)
        ensures
            c == (match self {
                Failure::Propagate | Failure::Listener => None,
                Failure::LibWallet(x) | Failure::Generic(x) | Failure::Io(x) | Failure::Argument(x)
                | Failure::Swap(x) => Some(*x),
            }),
    {
        match self {
            Failure::Propagate => None,
            Failure::Listener => None,
            Failure::LibWallet(x) => Some(*x),
            Failure::Generic(x) => Some(*x),
            Failure::Io(x) => Some(*x),
            Failure::Argument(x) => Some(*x),
            Failure::Swap(x) => Some(*x),
        }
    }
}

impl CommandError {
    /// The error as a line of text: its kind, and its message where it
    /// has one.
    pub fn describe(&self) -> (s: String)
        ensures
            s@ == (match self {
                CommandError::ListenerError => "Listener Startup Error"@,
                CommandError::ArgumentError(m) => "Invalid Arguments: "@ + m@,
                CommandError::LibWallet(m) => "LibWallet Error: "@ + m@,
                CommandError::GenericError(m) => "Generic error: "@ + m@,
                CommandError::IO(m) => "IO error: "@ + m@,
                CommandError::MQSConfig(m) => "MQS Config Error: "@ + m@,
                CommandError::Wallet(m) => m@,
                CommandError::SwapError(m) => "Swap Error: "@ + m@,
            }),
    {
        match self {
            CommandError::ListenerError => String::from_str("Listener Startup Error"),
            CommandError::ArgumentError(m) => String::from_str("Invalid Arguments: ").concat(
                m.as_str(),
            ),
            CommandError::LibWallet(m) => String::from_str("LibWallet Error: ").concat(m.as_str()),
            CommandError::GenericError(m) => String::from_str("Generic error: ").concat(m.as_str()),
            CommandError::IO(m) => String::from_str("IO error: ").concat(m.as_str()),
            CommandError::MQSConfig(m) => String::from_str("MQS Config Error: ").concat(m.as_str()),
            CommandError::Wallet(m) => m.clone(),
            CommandError::SwapError(m) => String::from_str("Swap Error: ").concat(m.as_str()),
        }
    }
}

impl Step {
    /// A call whose failure is handed on as it is.
    pub fn plain(call: Call) -> (s: Step)
        ensures
            s == (Step { call, failure: Failure::Propagate }),
    {
        Step { call, failure: Failure::Propagate }
    }

    /// The error that the command ends with when this step's call fails
    /// with `cause`; `detail` is the argument that the message names, or
    /// empty where it names none.
    pub fn fail(&self, detail: &str, cause: &str) -> (e: CommandError)
        ensures
            match self.failure {
                Failure::Propagate => e matches CommandError::Wallet(m) && m@ == cause@,
                Failure::Listener => e == CommandError::ListenerError,
                Failure::LibWallet(c) => e matches CommandError::LibWallet(m) && m@ == message_spec(
                    c,
                    detail@,
                    cause@,
                ),
                Failure::Generic(c) => e matches CommandError::GenericError(m) && m@
                    == message_spec(c, detail@, cause@),
                Failure::Io(c) => e matches CommandError::IO(m) && m@ == message_spec(
                    c,
                    detail@,
                    cause@,
                ),
                Failure::Argument(c) => e matches CommandError::ArgumentError(m) && m@
                    == message_spec(c, detail@, cause@),
                Failure::Swap(c) => e matches CommandError::SwapError(m) && m@ == message_spec(
                    c,
                    detail@,
                    cause@,
                ),
            },
    {
        match self.failure {
            Failure::Propagate => CommandError::Wallet(String::from_str(cause)),
            Failure::Listener => CommandError::ListenerError,
            Failure::LibWallet(c) => CommandError::LibWallet(message(c, detail, cause)),
            Failure::Generic(c) => CommandError::GenericError(message(c, detail, cause)),
            Failure::Io(c) => CommandError::IO(message(c, detail, cause)),
            Failure::Argument(c) => CommandError::ArgumentError(message(c, detail, cause)),
            Failure::Swap(c) => CommandError::SwapError(message(c, detail, cause)),
        }
    }
}


/// A step whose failure is handed on as it is.
pub open spec fn plain(call: Call) -> Step {
    Step { call, failure: Failure::Propagate }
}

/// A step whose failure is reported as a wallet failure under `c`.
pub open spec fn wallet(call: Call, c: Context) -> Step {
    Step { call, failure: Failure::LibWallet(c) }
}

impl Plan {
    /// A plan that ends well after `steps`.
    pub fn of(steps: Vec<Step>) -> (p: Plan)
        ensures
            p.steps@ == steps@,
            p.end is None,
    {
        Plan { steps, end: None }
    }

    /// A plan that makes no call and ends with an argument error.
    pub fn refuse(text: String) -> (p: Plan)
        ensures
            p.steps@ == Seq::<Step>::empty(),
            p.end matches Some(CommandError::ArgumentError(m)) && m@ == text@,
    {
        Plan { steps: Vec::new(), end: Some(CommandError::ArgumentError(text)) }
    }
}

/// Arguments for init command
#[derive(Debug, PartialEq, Eq)]
pub struct InitArgs {
    /// BIP39 recovery phrase length
    pub list_length: usize,
    pub password: String,
    pub config: WalletConfig,
    pub recovery_phrase: Option<String>,
    pub restore: bool,
}

/// The calls of `init`.
pub open spec fn init_plan(chain_type: ChainTypes, list_length: usize) -> Seq<Step> {
    seq![
        plain(Call::CreateConfig { chain_type }),
        plain(Call::CreateWallet { list_length }),
        plain(Call::GetMnemonic),
        plain(Call::ShowRecoveryPhrase),
    ]
}

/// Creates a wallet: writes the configuration of the chain type, creates
/// the seed, reads the recovery phrase back and shows it.
pub fn init(g_args: &GlobalArgs, args: &InitArgs) -> (plan: Plan)
    ensures
        plan.steps@ == init_plan(g_args.chain_type, args.list_length),
        plan.end is None,
{
    Plan::of(
        vec![
            Step::plain(Call::CreateConfig { chain_type: g_args.chain_type }),
            Step::plain(Call::CreateWallet { list_length: args.list_length }),
            Step::plain(Call::GetMnemonic),
            Step::plain(Call::ShowRecoveryPhrase),
        ],
    )
}

/// Argument for recover
#[derive(Debug, PartialEq, Eq)]
pub struct RecoverArgs {
    pub passphrase: String,
}

/// Shows the recovery phrase of an existing wallet.
pub fn recover(args: &RecoverArgs) -> (plan: Plan)
    ensures
        plan.steps@ == seq![plain(Call::GetMnemonic), plain(Call::ShowRecoveryPhrase)],
        plan.end is None,
{
    Plan::of(vec![Step::plain(Call::GetMnemonic), Step::plain(Call::ShowRecoveryPhrase)])
}

/// Arguments for listen command
#[derive(Debug, PartialEq, Eq)]
pub struct ListenArgs {
    pub method: String,
}

/// The listener that a method names.
pub open spec fn listener_of(method: Seq<char>) -> Option<Listener> {
    if method == "http"@ {
        Some(Listener::Http)
    } else if method == "keybase"@ {
        Some(Listener::Keybase)
    } else if method == "mwcmqs"@ {
        Some(Listener::Mqs)
    } else {
        None
    }
}

fn listener_for(method: &str) -> (l: Option<Listener>)
    ensures
        l == listener_of(method@),
{
    if str_eq(method, "http") {
        Some(Listener::Http)
    } else if str_eq(method, "keybase") {
        Some(Listener::Keybase)
    } else if str_eq(method, "mwcmqs") {
        Some(Listener::Mqs)
    } else {
        None
    }
}

/// Starts the listener that `args.method` names. Outside the command line
/// shell the command stays with the listener until it ends. A listener that
/// cannot be started, or that ends badly, is a listener error; a method
/// that names none is an argument error.
pub fn listen(args: &ListenArgs, cli_mode: bool) -> (plan: Plan)
    ensures
        match listener_of(args.method@) {
            Some(listener) => plan.end is None && plan.steps@ == seq![
                Step {
                    call: Call::StartListener { listener, wait: !cli_mode },
                    failure: Failure::Listener,
                },
            ],
            None => plan.steps@ == Seq::<Step>::empty() && (plan.end matches Some(
                CommandError::ArgumentError(m),
            ) && m@ == "No listener for method '"@ + args.method@ + "'"@),
        },
{
    match listener_for(args.method.as_str()) {
        Some(listener) => Plan::of(
            vec![
                Step {
                    call: Call::StartListener { listener, wait: !cli_mode },
                    failure: Failure::Listener,
                },
            ],
        ),
        None => Plan::refuse(
            String::from_str("No listener for method '").concat(args.method.as_str()).concat("'"),
        ),
    }
}

/// Whether a switch of the configuration is set and on.
pub open spec fn is_on(flag: Option<bool>) -> bool {
    flag == Some(true)
}

/// The calls of `owner_api`.
pub open spec fn owner_api_plan(config: WalletConfig) -> Seq<Step> {
    (if is_on(config.owner_api_include_mqs_listener) {
        seq![plain(Call::StartListener { listener: Listener::Mqs, wait: false })]
    } else {
        seq![]
    }) + (if is_on(config.owner_api_include_keybase_listener) {
        seq![plain(Call::StartListener { listener: Listener::Keybase, wait: false })]
    } else {
        seq![]
    }) + seq![
        wallet(
            Call::StartOwnerListener { include_foreign: config.owner_api_include_foreign },
            Context::StartListener,
        ),
    ]
}

/// Serves the owner API: first the message queue listener and the keybase
/// listener, each where the configuration asks for it, then the owner
/// listener itself.
pub fn owner_api(config: &WalletConfig) -> (plan: Plan)
    ensures
        plan.steps@ == owner_api_plan(*config),
        plan.end is None,
{
    let mut steps: Vec<Step> = Vec::new();
    if config.owner_api_include_mqs_listener == Some(true) {
        steps.push(Step::plain(Call::StartListener { listener: Listener::Mqs, wait: false }));
    }
    if config.owner_api_include_keybase_listener == Some(true) {
        steps.push(Step::plain(Call::StartListener { listener: Listener::Keybase, wait: false }));
    }
    steps.push(
        Step {
            call: Call::StartOwnerListener { include_foreign: config.owner_api_include_foreign },
            failure: Failure::LibWallet(Context::StartListener),
        },
    );
    assert(steps@ =~= owner_api_plan(*config));
    Plan::of(steps)
}

/// Arguments for account command
#[derive(Debug, PartialEq, Eq)]
pub struct AccountArgs {
    pub create: Option<String>,
}

/// The calls of `account`.
pub open spec fn account_plan(create: bool) -> Seq<Step> {
    if create {
        seq![wallet(Call::CreateAccount, Context::CreateAccount), plain(Call::Pause { millis: 200 })]
    } else {
        seq![
            wallet(Call::ListAccounts, Context::ListAccounts),
            plain(Call::Pause { millis: 200 }),
            plain(Call::ShowAccounts),
        ]
    }
}

/// Lists the accounts, or creates the one that `args.create` names. The
/// message of a failed creation names the account.
pub fn account(args: &AccountArgs) -> (plan: Plan)
    ensures
        plan.steps@ == account_plan(args.create is Some),
        plan.end is None,
{
    if args.create.is_none() {
        Plan::of(
            vec![
                Step { call: Call::ListAccounts, failure: Failure::LibWallet(Context::ListAccounts) },
                Step::plain(Call::Pause { millis: 200 }),
                Step::plain(Call::ShowAccounts),
            ],
        )
    } else {
        Plan::of(
            vec![
                Step { call: Call::CreateAccount, failure: Failure::LibWallet(Context::CreateAccount) },
                Step::plain(Call::Pause { millis: 200 }),
            ],
        )
    }
}


/// Arguments for the send command
#[derive(Debug, PartialEq, Eq)]
pub struct SendArgs {
    pub amount: u64,
    pub message: Option<String>,
    pub minimum_confirmations: u64,
    pub selection_strategy: String,
    pub estimate_selection_strategies: bool,
    pub method: String,
    pub dest: String,
    pub apisecret: Option<String>,
    pub change_outputs: usize,
    pub fluff: bool,
    pub max_outputs: usize,
    pub target_slate_version: Option<u16>,
    pub payment_proof_address: Option<String>,
    pub ttl_blocks: Option<u64>,
    pub exclude_change_outputs: bool,
    pub minimum_confirmations_change_outputs: u64,
    /// Only for a payment proof that travels by file.
    pub address: Option<String>,
}

/// What the wallet is asked when a transaction is started. A field that is
/// `None` is left at the wallet's default.
#[derive(Debug, PartialEq, Eq)]
pub struct InitTxArgs {
    pub src_acct_name: Option<String>,
    pub amount: u64,
    pub minimum_confirmations: u64,
    pub max_outputs: u32,
    pub num_change_outputs: u32,
    pub selection_strategy_is_use_all: bool,
    pub message: Option<String>,
    pub target_slate_version: Option<u16>,
    pub ttl_blocks: Option<u64>,
    pub payment_proof_recipient_address: Option<String>,
    pub address: Option<String>,
    pub estimate_only: Option<bool>,
    pub exclude_change_outputs: Option<bool>,
    pub minimum_confirmations_change_outputs: Option<u64>,
}

/// The low 32 bits of a count.
pub open spec fn low32(n: usize) -> u32 {
    (n as int % 0x1_0000_0000) as u32
}

fn to_u32(n: usize) -> (r: u32)
    ensures
        r == low32(n),
{
    let wide = n as u64;
    (wide % 0x1_0000_0000) as u32
}

fn copy_text(text: &Option<String>) -> (r: Option<String>)
    ensures
        r == *text,
{
    match text {
        Some(t) => Some(t.clone()),
        None => None,
    }
}

/// The strategy that a name selects: `all` spends all outputs, any other
/// name the smallest ones.
pub open spec fn strategy_of(name: Seq<char>) -> Strategy {
    if name == "all"@ {
        Strategy::All
    } else {
        Strategy::Smallest
    }
}

fn strategy_for(name: &str) -> (r: Strategy)
    ensures
        r == strategy_of(name@),
{
    if str_eq(name, "all") {
        Strategy::All
    } else {
        Strategy::Smallest
    }
}

/// What `send` asks the wallet when it starts a transaction. Counts are cut
/// to their low 32 bits. An estimate carries neither message, slate
/// version, proof address nor time to live.
pub fn send_init_args(args: &SendArgs, strategy: Strategy, estimate_only: bool) -> (r: InitTxArgs)
    ensures
        r.src_acct_name is None,
        r.amount == args.amount,
        r.minimum_confirmations == args.minimum_confirmations,
        r.max_outputs == low32(args.max_outputs),
        r.num_change_outputs == low32(args.change_outputs),
        r.selection_strategy_is_use_all == (strategy == Strategy::All),
        r.address == args.address,
        r.exclude_change_outputs == Some(args.exclude_change_outputs),
        r.minimum_confirmations_change_outputs == Some(args.minimum_confirmations_change_outputs),
        estimate_only ==> r.estimate_only == Some(true) && r.message is None
            && r.target_slate_version is None && r.ttl_blocks is None
            && r.payment_proof_recipient_address is None,
        !estimate_only ==> r.estimate_only is None && r.message == args.message
            && r.target_slate_version == args.target_slate_version && r.ttl_blocks
            == args.ttl_blocks && r.payment_proof_recipient_address == args.payment_proof_address,
{
    let all = match strategy {
        Strategy::All => true,
        Strategy::Smallest => false,
    };
    if estimate_only {
        InitTxArgs {
            src_acct_name: None,
            amount: args.amount,
            minimum_confirmations: args.minimum_confirmations,
            max_outputs: to_u32(args.max_outputs),
            num_change_outputs: to_u32(args.change_outputs),
            selection_strategy_is_use_all: all,
            message: None,
            target_slate_version: None,
            ttl_blocks: None,
            payment_proof_recipient_address: None,
            address: copy_text(&args.address),
            estimate_only: Some(true),
            exclude_change_outputs: Some(args.exclude_change_outputs),
            minimum_confirmations_change_outputs: Some(args.minimum_confirmations_change_outputs),
        }
    } else {
        InitTxArgs {
            src_acct_name: None,
            amount: args.amount,
            minimum_confirmations: args.minimum_confirmations,
            max_outputs: to_u32(args.max_outputs),
            num_change_outputs: to_u32(args.change_outputs),
            selection_strategy_is_use_all: all,
            message: copy_text(&args.message),
            target_slate_version: args.target_slate_version,
            ttl_blocks: args.ttl_blocks,
            payment_proof_recipient_address: copy_text(&args.payment_proof_address),
            address: copy_text(&args.address),
            estimate_only: None,
            exclude_change_outputs: Some(args.exclude_change_outputs),
            minimum_confirmations_change_outputs: Some(args.minimum_confirmations_change_outputs),
        }
    }
}

/// The two estimates and their display.
pub open spec fn estimate_plan() -> Seq<Step> {
    seq![
        plain(Call::InitSend { strategy: Strategy::Smallest, estimate_only: true }),
        plain(Call::InitSend { strategy: Strategy::All, estimate_only: true }),
        plain(Call::ShowEstimate),
    ]
}

/// The listener that `send` starts before it hands the draft over, with
/// the pause that lets it come up.
pub open spec fn send_listener(method: Seq<char>) -> Seq<Step> {
    if method == "keybase"@ {
        seq![
            plain(Call::StartListener { listener: Listener::Keybase, wait: false }),
            plain(Call::Pause { millis: 2000 }),
        ]
    } else if method == "mwcmqs"@ {
        seq![
            plain(Call::StartListener { listener: Listener::Mqs, wait: false }),
            plain(Call::Pause { millis: 2000 }),
        ]
    } else {
        seq![]
    }
}

/// How `send` delivers the draft. By file the draft is written and its
/// outputs are locked, and that is all. Otherwise the draft is answered,
/// by this wallet or by the destination, and then finalized and posted.
pub open spec fn send_delivery(method: Seq<char>, fluff: bool) -> Seq<Step> {
    if method == "file"@ {
        seq![
            Step {
                call: Call::WriteSlate { target: Target::Destination },
                failure: Failure::Io(Context::StoreSlate),
            },
            plain(Call::LockOutputs { label: Label::File, participant_id: 0 }),
        ]
    } else if method == "self"@ {
        seq![
            plain(Call::LockOutputs { label: Label::Own, participant_id: 0 }),
            plain(Call::ReceiveTx { label: Label::Own }),
            plain(Call::Finalize { api: Api::Owner }),
            wallet(Call::PostTx { fluff }, Context::PostSlate),
        ]
    } else {
        seq![
            plain(Call::SendSlate),
            plain(Call::RestoreTtl),
            plain(Call::CompareSlates),
            plain(Call::VerifyMessages { api: Api::Owner }),
            plain(Call::LockOutputs { label: Label::Destination, participant_id: 0 }),
            plain(Call::Finalize { api: Api::Owner }),
            wallet(Call::PostTx { fluff }, Context::PostSlate),
        ]
    }
}

/// The calls of `send` where it does not only estimate.
pub open spec fn send_plan(args: SendArgs) -> Seq<Step> {
    seq![
        wallet(
            Call::InitSend {
                strategy: strategy_of(args.selection_strategy@),
                estimate_only: false,
            },
            Context::CreateSlate,
        ),
    ] + send_listener(args.method@) + send_delivery(args.method@, args.fluff)
}

fn push_listener(steps: &mut Vec<Step>, method: &str)
    ensures
        final(steps)@ == old(steps)@ + send_listener(method@),
{
    if str_eq(method, "keybase") {
        steps.push(Step::plain(Call::StartListener { listener: Listener::Keybase, wait: false }));
        steps.push(Step::plain(Call::Pause { millis: 2000 }));
    } else if str_eq(method, "mwcmqs") {
        steps.push(Step::plain(Call::StartListener { listener: Listener::Mqs, wait: false }));
        steps.push(Step::plain(Call::Pause { millis: 2000 }));
    }
    assert(steps@ =~= old(steps)@ + send_listener(method@));
}

fn push_delivery(steps: &mut Vec<Step>, method: &str, fluff: bool)
    ensures
        final(steps)@ == old(steps)@ + send_delivery(method@, fluff),
{
    let post = Step { call: Call::PostTx { fluff }, failure: Failure::LibWallet(Context::PostSlate) };
    if str_eq(method, "file") {
        steps.push(
            Step {
                call: Call::WriteSlate { target: Target::Destination },
                failure: Failure::Io(Context::StoreSlate),
            },
        );
        steps.push(Step::plain(Call::LockOutputs { label: Label::File, participant_id: 0 }));
    } else if str_eq(method, "self") {
        steps.push(Step::plain(Call::LockOutputs { label: Label::Own, participant_id: 0 }));
        steps.push(Step::plain(Call::ReceiveTx { label: Label::Own }));
        steps.push(Step::plain(Call::Finalize { api: Api::Owner }));
        steps.push(post);
    } else {
        steps.push(Step::plain(Call::SendSlate));
        steps.push(Step::plain(Call::RestoreTtl));
        steps.push(Step::plain(Call::CompareSlates));
        steps.push(Step::plain(Call::VerifyMessages { api: Api::Owner }));
        steps.push(Step::plain(Call::LockOutputs { label: Label::Destination, participant_id: 0 }));
        steps.push(Step::plain(Call::Finalize { api: Api::Owner }));
        steps.push(post);
    }
    assert(steps@ =~= old(steps)@ + send_delivery(method@, fluff));
}

/// Sends coins. With `estimate_selection_strategies` it only asks for an
/// estimate under each strategy and shows both. Otherwise it starts the
/// transaction, starts the listener that the method needs, and delivers the
/// draft. The message queue method without a configuration ends, after the
/// transaction was started, with a configuration error.
pub fn send(args: &SendArgs, mqs_config: &Option<MqsConfig>) -> (plan: Plan)
    ensures
        args.estimate_selection_strategies ==> plan.steps@ == estimate_plan() && plan.end is None,
        !args.estimate_selection_strategies && args.method@ == "mwcmqs"@ && mqs_config is None ==> {
            &&& plan.steps@ == send_plan(*args).take(1)
            &&& plan.end matches Some(CommandError::MQSConfig(m)) && m@ == "NO MQS config!"@
        },
        !args.estimate_selection_strategies && !(args.method@ == "mwcmqs"@ && mqs_config is None)
            ==> plan.steps@ == send_plan(*args) && plan.end is None,
{
    if args.estimate_selection_strategies {
        return Plan::of(
            vec![
                Step::plain(Call::InitSend { strategy: Strategy::Smallest, estimate_only: true }),
                Step::plain(Call::InitSend { strategy: Strategy::All, estimate_only: true }),
                Step::plain(Call::ShowEstimate),
            ],
        );
    }
    let mut steps: Vec<Step> = Vec::new();
    steps.push(
        Step {
            call: Call::InitSend {
                strategy: strategy_for(args.selection_strategy.as_str()),
                estimate_only: false,
            },
            failure: Failure::LibWallet(Context::CreateSlate),
        },
    );
    if str_eq(args.method.as_str(), "mwcmqs") && mqs_config.is_none() {
        assert(steps@ =~= send_plan(*args).take(1));
        return Plan { steps, end: Some(CommandError::MQSConfig(String::from_str("NO MQS config!"))) };
    }
    push_listener(&mut steps, args.method.as_str());
    push_delivery(&mut steps, args.method.as_str(), args.fluff);
    assert(steps@ =~= send_plan(*args));
    Plan::of(steps)
}

/// Receive command argument
#[derive(Debug, PartialEq, Eq)]
pub struct ReceiveArgs {
    pub input: String,
    pub message: Option<String>,
}

/// The calls of `receive`.
pub open spec fn receive_plan() -> Seq<Step> {
    seq![
        plain(Call::ReadSlate),
        wallet(Call::VerifyMessages { api: Api::Foreign }, Context::ValidateMessages),
        plain(Call::ReceiveTx { label: Label::File }),
        plain(Call::WriteSlate { target: Target::Response }),
    ]
}

/// Receives a transaction from a file: reads the draft, checks its
/// messages, signs for the account of `g_args`, and writes the answer next
/// to the input.
pub fn receive(g_args: &GlobalArgs, args: &ReceiveArgs) -> (plan: Plan)
    ensures
        plan.steps@ == receive_plan(),
        plan.end is None,
{
    Plan::of(
        vec![
            Step::plain(Call::ReadSlate),
            Step {
                call: Call::VerifyMessages { api: Api::Foreign },
                failure: Failure::LibWallet(Context::ValidateMessages),
            },
            Step::plain(Call::ReceiveTx { label: Label::File }),
            Step::plain(Call::WriteSlate { target: Target::Response }),
        ],
    )
}

/// The path of the answer to the draft at `input`.
pub fn response_path(input: &str) -> (path: String)
    ensures
        path@ == input@ + ".response"@,
{
    String::from_str(input).concat(".response")
}

/// Finalize command args
#[derive(Debug, PartialEq, Eq)]
pub struct FinalizeArgs {
    pub input: String,
    pub fluff: bool,
    pub nopost: bool,
    pub dest: Option<String>,
}

/// The calls of `finalize`.
pub open spec fn finalize_plan(args: FinalizeArgs, is_invoice: bool) -> Seq<Step> {
    let api = if is_invoice {
        Api::Foreign
    } else {
        Api::Owner
    };
    seq![
        plain(Call::ReadSlate),
        wallet(Call::VerifyMessages { api }, Context::ValidateMessages),
        plain(Call::Finalize { api }),
    ] + (if args.nopost {
        seq![]
    } else {
        seq![wallet(Call::PostTx { fluff: args.fluff }, Context::PostSlate)]
    }) + (if args.dest is Some {
        seq![plain(Call::WriteSlate { target: Target::Destination })]
    } else {
        seq![]
    })
}

/// Completes a transaction from a file. An invoice is checked and
/// completed through the foreign interface, any other draft through the
/// owner's. The transaction is posted unless `nopost` is set, and the
/// completed draft is written where `dest` names a place.
pub fn finalize(args: &FinalizeArgs, is_invoice: bool) -> (plan: Plan)
    ensures
        plan.steps@ == finalize_plan(*args, is_invoice),
        plan.end is None,
{
    let api = if is_invoice {
        Api::Foreign
    } else {
        Api::Owner
    };
    let mut steps: Vec<Step> = vec![
        Step::plain(Call::ReadSlate),
        Step {
            call: Call::VerifyMessages { api },
            failure: Failure::LibWallet(Context::ValidateMessages),
        },
        Step::plain(Call::Finalize { api }),
    ];
    if !args.nopost {
        steps.push(
            Step {
                call: Call::PostTx { fluff: args.fluff },
                failure: Failure::LibWallet(Context::PostSlate),
            },
        );
    }
    if args.dest.is_some() {
        steps.push(Step::plain(Call::WriteSlate { target: Target::Destination }));
    }
    assert(steps@ =~= finalize_plan(*args, is_invoice));
    Plan::of(steps)
}

/// What the wallet is asked when an invoice is issued.
#[derive(Debug, PartialEq, Eq)]
pub struct IssueInvoiceTxArgs {
    pub dest_acct_name: Option<String>,
    pub amount: u64,
    pub message: Option<String>,
    pub target_slate_version: Option<u16>,
    pub address: Option<String>,
}

/// Issue Invoice Args
#[derive(Debug, PartialEq, Eq)]
pub struct IssueInvoiceArgs {
    /// output file
    pub dest: String,
    /// issue invoice tx args
    pub issue_args: IssueInvoiceTxArgs,
}

/// Issues an invoice and writes it to the destination.
pub fn issue_invoice_tx(args: &IssueInvoiceArgs) -> (plan: Plan)
    ensures
        plan.steps@ == seq![
            plain(Call::IssueInvoice),
            plain(Call::WriteSlate { target: Target::Destination }),
        ],
        plan.end is None,
{
    Plan::of(
        vec![
            Step::plain(Call::IssueInvoice),
            Step::plain(Call::WriteSlate { target: Target::Destination }),
        ],
    )
}

/// Arguments for the process_invoice command
#[derive(Debug, PartialEq, Eq)]
pub struct ProcessInvoiceArgs {
    pub message: Option<String>,
    pub minimum_confirmations: u64,
    pub selection_strategy: String,
    pub method: String,
    pub dest: String,
    pub max_outputs: usize,
    pub input: String,
    pub estimate_selection_strategies: bool,
    pub ttl_blocks: Option<u64>,
}

/// What `process_invoice` asks the wallet. An estimate is made for the
/// invoice's amount; the payment itself names no amount, the invoice does.
/// There is one change output either way.
pub fn invoice_init_args(
    args: &ProcessInvoiceArgs,
    invoice_amount: u64,
    strategy: Strategy,
    estimate_only: bool,
) -> (r: InitTxArgs)
    ensures
        r.src_acct_name is None,
        r.minimum_confirmations == args.minimum_confirmations,
        r.max_outputs == low32(args.max_outputs),
        r.num_change_outputs == 1,
        r.selection_strategy_is_use_all == (strategy == Strategy::All),
        r.target_slate_version is None,
        r.payment_proof_recipient_address is None,
        r.address is None,
        r.exclude_change_outputs is None,
        r.minimum_confirmations_change_outputs is None,
        estimate_only ==> r.amount == invoice_amount && r.estimate_only == Some(true) && r.message
            is None && r.ttl_blocks is None,
        !estimate_only ==> r.amount == 0 && r.estimate_only is None && r.message == args.message
            && r.ttl_blocks == args.ttl_blocks,
{
    let all = match strategy {
        Strategy::All => true,
        Strategy::Smallest => false,
    };
    InitTxArgs {
        src_acct_name: None,
        amount: if estimate_only {
            invoice_amount
        } else {
            0
        },
        minimum_confirmations: args.minimum_confirmations,
        max_outputs: to_u32(args.max_outputs),
        num_change_outputs: 1,
        selection_strategy_is_use_all: all,
        message: if estimate_only {
            None
        } else {
            copy_text(&args.message)
        },
        target_slate_version: None,
        ttl_blocks: if estimate_only {
            None
        } else {
            args.ttl_blocks
        },
        payment_proof_recipient_address: None,
        address: None,
        estimate_only: if estimate_only {
            Some(true)
        } else {
            None
        },
        exclude_change_outputs: None,
        minimum_confirmations_change_outputs: None,
    }
}

/// How `process_invoice` hands the paid invoice back.
pub open spec fn invoice_delivery(method: Seq<char>) -> Seq<Step> {
    if method == "file"@ {
        seq![
            plain(Call::WriteSlate { target: Target::Destination }),
            plain(Call::LockOutputs { label: Label::File, participant_id: 1 }),
        ]
    } else if method == "self"@ {
        seq![
            plain(Call::LockOutputs { label: Label::Own, participant_id: 1 }),
            plain(Call::Finalize { api: Api::Foreign }),
        ]
    } else {
        seq![
            plain(Call::SendSlate),
            plain(Call::LockOutputs { label: Label::Destination, participant_id: 1 }),
        ]
    }
}

/// The calls of `process_invoice`.
pub open spec fn process_invoice_plan(args: ProcessInvoiceArgs) -> Seq<Step> {
    if args.estimate_selection_strategies {
        seq![plain(Call::ReadSlate)] + estimate_plan()
    } else {
        seq![
            plain(Call::ReadSlate),
            wallet(Call::VerifyMessages { api: Api::Owner }, Context::ValidateMessages),
            wallet(
                Call::ProcessInvoice { strategy: strategy_of(args.selection_strategy@) },
                Context::ProcessInvoice,
            ),
        ] + invoice_delivery(args.method@)
    }
}

/// Pays an invoice from a file, or with `estimate_selection_strategies`
/// only estimates the payment under each strategy. The outputs are locked
/// for the paid invoice as it left this wallet, whatever the destination
/// answers.
pub fn process_invoice(args: &ProcessInvoiceArgs) -> (plan: Plan)
    ensures
        plan.steps@ == process_invoice_plan(*args),
        plan.end is None,
{
    let mut steps: Vec<Step> = vec![Step::plain(Call::ReadSlate)];
    if args.estimate_selection_strategies {
        steps.push(Step::plain(Call::InitSend { strategy: Strategy::Smallest, estimate_only: true }));
        steps.push(Step::plain(Call::InitSend { strategy: Strategy::All, estimate_only: true }));
        steps.push(Step::plain(Call::ShowEstimate));
        assert(steps@ =~= process_invoice_plan(*args));
        return Plan::of(steps);
    }
    steps.push(
        Step {
            call: Call::VerifyMessages { api: Api::Owner },
            failure: Failure::LibWallet(Context::ValidateMessages),
        },
    );
    steps.push(
        Step {
            call: Call::ProcessInvoice { strategy: strategy_for(args.selection_strategy.as_str()) },
            failure: Failure::LibWallet(Context::ProcessInvoice),
        },
    );
    let method = args.method.as_str();
    if str_eq(method, "file") {
        steps.push(Step::plain(Call::WriteSlate { target: Target::Destination }));
        steps.push(Step::plain(Call::LockOutputs { label: Label::File, participant_id: 1 }));
    } else if str_eq(method, "self") {
        steps.push(Step::plain(Call::LockOutputs { label: Label::Own, participant_id: 1 }));
        steps.push(Step::plain(Call::Finalize { api: Api::Foreign }));
    } else {
        steps.push(Step::plain(Call::SendSlate));
        steps.push(Step::plain(Call::LockOutputs { label: Label::Destination, participant_id: 1 }));
    }
    assert(steps@ =~= process_invoice_plan(*args));
    Plan::of(steps)
}


/// Info command args
#[derive(Debug, PartialEq, Eq)]
pub struct InfoArgs {
    pub minimum_confirmations: u64,
}

/// Summarises the wallet for the confirmations asked for.
pub fn info(args: &InfoArgs) -> (plan: Plan)
    ensures
        plan.steps@ == seq![
            plain(Call::ShowInfo { minimum_confirmations: args.minimum_confirmations }),
        ],
        plan.end is None,
{
    Plan::of(
        vec![Step::plain(Call::ShowInfo { minimum_confirmations: args.minimum_confirmations })],
    )
}

/// Whether a listing is shown as up to date: it is where the wallet
/// confirmed it against the node, or where the background updater runs.
pub fn shown_as_validated(validated: bool, updater_running: bool) -> (r: bool)
    ensures
        r == (validated || updater_running),
{
    validated || updater_running
}

/// Lists the outputs of the account, refreshed from the node; spent ones
/// too where `g_args` asks for them.
pub fn outputs(g_args: &GlobalArgs) -> (plan: Plan)
    ensures
        plan.steps@ == seq![
            plain(Call::NodeHeight),
            plain(Call::ShowOutputs { include_spent: g_args.show_spent, refresh: true, tx_id: None }),
        ],
        plan.end is None,
{
    Plan::of(
        vec![
            Step::plain(Call::NodeHeight),
            Step::plain(
                Call::ShowOutputs { include_spent: g_args.show_spent, refresh: true, tx_id: None },
            ),
        ],
    )
}

/// Txs command args
#[derive(Clone, Copy, Debug, PartialEq, Eq, Structural)]
pub struct TxsArgs {
    pub id: Option<u32>,
    pub tx_slate_id: Option<Uuid>,
}

/// What the commands read of a listed transaction.
#[derive(Clone, Copy, Debug, PartialEq, Eq, Structural)]
pub struct TxSummary {
    /// The number of the entry in the wallet's log.
    pub id: u32,
    /// The identifier of the transaction's draft.
    pub tx_slate_id: Option<Uuid>,
    /// Whether the chain has confirmed the transaction.
    pub confirmed: bool,
}

/// Lists transactions: all of them with their status, or the one that an
/// identifier selects without it.
pub fn txs(args: &TxsArgs) -> (plan: Plan)
    ensures
        plan.steps@ == seq![
            plain(Call::NodeHeight),
            plain(Call::RetrieveTxs { id: args.id, tx_slate_id: args.tx_slate_id }),
            plain(Call::ShowTxs { include_status: args.id is None && args.tx_slate_id is None }),
        ],
        plan.end is None,
{
    Plan::of(
        vec![
            Step::plain(Call::NodeHeight),
            Step::plain(Call::RetrieveTxs { id: args.id, tx_slate_id: args.tx_slate_id }),
            Step::plain(
                Call::ShowTxs { include_status: args.id.is_none() && args.tx_slate_id.is_none() },
            ),
        ],
    )
}

/// Whether `i` is the first listed transaction with the draft `slate`.
pub open spec fn first_with_slate(listed: Seq<TxSummary>, slate: Option<Uuid>, i: int) -> bool {
    &&& 0 <= i < listed.len()
    &&& listed[i].tx_slate_id == slate
    &&& forall|k: int| 0 <= k < i ==> listed[k].tx_slate_id != slate
}

/// The transaction whose outputs and messages `txs` goes on to show: the
/// one that `args.id` numbers; without a number, the first listed one with
/// the draft `args.tx_slate_id`; none where neither is given or no listed
/// transaction has that draft.
pub fn txs_detail_id(args: &TxsArgs, listed: &Vec<TxSummary>) -> (id: Option<u32>)
    ensures
        args.id is Some ==> id == args.id,
        args.id is None && args.tx_slate_id is None ==> id is None,
        args.id is None && args.tx_slate_id is Some ==> match id {
            Some(n) => exists|i: int|
                first_with_slate(listed@, args.tx_slate_id, i) && listed@[i].id == n,
            None => forall|i: int|
                0 <= i < listed@.len() ==> listed@[i].tx_slate_id != args.tx_slate_id,
        },
{
    if args.id.is_some() {
        return args.id;
    }
    if args.tx_slate_id.is_none() {
        return None;
    }
    let mut i: usize = 0;
    while i < listed.len()
        invariant
            i <= listed@.len(),
            args.id is None,
            args.tx_slate_id is Some,
            forall|k: int| 0 <= k < i ==> listed@[k].tx_slate_id != args.tx_slate_id,
        decreases listed@.len() - i,
    {
        if listed[i].tx_slate_id == args.tx_slate_id {
            assert(first_with_slate(listed@, args.tx_slate_id, i as int));
            return Some(listed[i].id);
        }
        i = i + 1;
    }
    None
}

/// What `txs` shows of the transaction that was singled out: its outputs,
/// spent ones too, as the wallet knows them, and then its messages and
/// payment proof. Without such a transaction there is nothing more to show.
pub fn txs_details(id: Option<u32>) -> (plan: Plan)
    ensures
        plan.end is None,
        id is Some ==> plan.steps@ == seq![
            plain(Call::ShowOutputs { include_spent: true, refresh: false, tx_id: id }),
            plain(Call::ShowTxDetails),
        ],
        id is None ==> plan.steps@ == Seq::<Step>::empty(),
{
    if id.is_some() {
        Plan::of(
            vec![
                Step::plain(Call::ShowOutputs { include_spent: true, refresh: false, tx_id: id }),
                Step::plain(Call::ShowTxDetails),
            ],
        )
    } else {
        Plan::of(Vec::new())
    }
}

/// Post
#[derive(Debug, PartialEq, Eq)]
pub struct PostArgs {
    pub input: String,
    pub fluff: bool,
}

/// Posts the transaction of the draft at the input path.
pub fn post(args: &PostArgs) -> (plan: Plan)
    ensures
        plan.steps@ == seq![plain(Call::ReadSlate), plain(Call::PostTx { fluff: args.fluff })],
        plan.end is None,
{
    Plan::of(vec![Step::plain(Call::ReadSlate), Step::plain(Call::PostTx { fluff: args.fluff })])
}

/// Submit
#[derive(Debug, PartialEq, Eq)]
pub struct SubmitArgs {
    pub input: String,
    pub fluff: bool,
}

/// Posts the stored transaction at the input path.
pub fn submit(args: &SubmitArgs) -> (plan: Plan)
    ensures
        plan.steps@ == seq![plain(Call::LoadStoredTx), plain(Call::PostTx { fluff: args.fluff })],
        plan.end is None,
{
    Plan::of(
        vec![Step::plain(Call::LoadStoredTx), Step::plain(Call::PostTx { fluff: args.fluff })],
    )
}

/// Repost
#[derive(Debug, PartialEq, Eq)]
pub struct RepostArgs {
    pub id: u32,
    pub dump_file: Option<String>,
    pub fluff: bool,
}

/// The calls by which a stored transaction is dumped to a file.
pub open spec fn dump_plan() -> Seq<Step> {
    seq![
        Step { call: Call::CreateDump, failure: Failure::Io(Context::CreateDump) },
        Step { call: Call::EncodeStoredTx, failure: Failure::Generic(Context::ConvertTx) },
        Step { call: Call::SaveDump, failure: Failure::Io(Context::SaveDump) },
    ]
}

/// What `repost` does with the transaction it looked up.
pub open spec fn repost_plan(args: RepostArgs, has_data: bool, confirmed: bool) -> Seq<Step> {
    if !has_data {
        seq![]
    } else if args.dump_file is Some {
        dump_plan()
    } else if confirmed {
        seq![]
    } else {
        seq![plain(Call::PostTx { fluff: args.fluff })]
    }
}

/// Looks up the transaction that `args.id` numbers, with its stored data.
pub fn repost_lookup(args: &RepostArgs) -> (plan: Plan)
    ensures
        plan.steps@ == seq![
            plain(Call::RetrieveTxs { id: Some(args.id), tx_slate_id: None }),
            plain(Call::GetStoredTx),
        ],
        plan.end is None,
{
    Plan::of(
        vec![
            Step::plain(Call::RetrieveTxs { id: Some(args.id), tx_slate_id: None }),
            Step::plain(Call::GetStoredTx),
        ],
    )
}

/// Posts a transaction again, or dumps it. `has_data` says whether the
/// wallet holds the transaction's data, `confirmed` whether the chain has
/// confirmed it. Without data nothing is done. With a dump file the data is
/// written there, confirmed or not. Otherwise the transaction is posted
/// unless it is confirmed.
pub fn repost(args: &RepostArgs, has_data: bool, confirmed: bool) -> (plan: Plan)
    ensures
        plan.steps@ == repost_plan(*args, has_data, confirmed),
        plan.end is None,
{
    if !has_data {
        Plan::of(Vec::new())
    } else if args.dump_file.is_some() {
        Plan::of(
            vec![
                Step { call: Call::CreateDump, failure: Failure::Io(Context::CreateDump) },
                Step { call: Call::EncodeStoredTx, failure: Failure::Generic(Context::ConvertTx) },
                Step { call: Call::SaveDump, failure: Failure::Io(Context::SaveDump) },
            ],
        )
    } else if confirmed {
        Plan::of(Vec::new())
    } else {
        Plan::of(vec![Step::plain(Call::PostTx { fluff: args.fluff })])
    }
}

/// Cancel
#[derive(Debug, PartialEq, Eq)]
pub struct CancelArgs {
    pub tx_id: Option<u32>,
    pub tx_slate_id: Option<Uuid>,
    pub tx_id_string: String,
}

/// Cancels a transaction. The message of a failure names the transaction
/// as the operator wrote it.
pub fn cancel(args: &CancelArgs) -> (plan: Plan)
    ensures
        plan.steps@ == seq![
            wallet(
                Call::CancelTx { tx_id: args.tx_id, tx_slate_id: args.tx_slate_id },
                Context::CancelTx,
            ),
        ],
        plan.end is None,
{
    Plan::of(
        vec![
            Step {
                call: Call::CancelTx { tx_id: args.tx_id, tx_slate_id: args.tx_slate_id },
                failure: Failure::LibWallet(Context::CancelTx),
            },
        ],
    )
}

/// wallet check
#[derive(Clone, Copy, Debug, PartialEq, Eq, Structural)]
pub struct CheckArgs {
    pub delete_unconfirmed: bool,
    pub start_height: Option<u64>,
    pub backwards_from_tip: Option<u64>,
}

/// The height at which a scan starts: so many blocks back from the tip
/// where `backwards_from_tip` is given, not below zero; else the start
/// height given; else 1.
pub open spec fn scan_start(args: CheckArgs, tip_height: u64) -> u64 {
    match args.backwards_from_tip {
        Some(b) => if b <= tip_height {
            (tip_height - b) as u64
        } else {
            0
        },
        None => match args.start_height {
            Some(s) => s,
            None => 1,
        },
    }
}

/// Scans the chain for the wallet's outputs, from the height that the
/// arguments and the node's tip give.
pub fn scan(args: &CheckArgs, tip_height: u64) -> (plan: Plan)
    ensures
        plan.steps@ == seq![
            wallet(
                Call::Scan {
                    start_height: scan_start(*args, tip_height),
                    delete_unconfirmed: args.delete_unconfirmed,
                },
                Context::WalletCheck,
            ),
        ],
        plan.end is None,
{
    let start_height = match args.backwards_from_tip {
        Some(b) => tip_height.saturating_sub(b),
        None => match args.start_height {
            Some(s) => s,
            None => 1,
        },
    };
    Plan::of(
        vec![
            Step {
                call: Call::Scan { start_height, delete_unconfirmed: args.delete_unconfirmed },
                failure: Failure::LibWallet(Context::WalletCheck),
            },
        ],
    )
}

/// Payment Proof Address: the one at derivation index 0.
pub fn address(g_args: &GlobalArgs) -> (plan: Plan)
    ensures
        plan.steps@ == seq![plain(Call::ShowAddress { index: 0 })],
        plan.end is None,
{
    Plan::of(vec![Step::plain(Call::ShowAddress { index: 0 })])
}

/// Proof Export Args
#[derive(Debug, PartialEq, Eq)]
pub struct ProofExportArgs {
    pub output_file: String,
    pub id: Option<u32>,
    pub tx_slate_id: Option<Uuid>,
}

/// The calls of `proof_export`.
pub open spec fn proof_export_plan(id: Option<u32>, tx_slate_id: Option<Uuid>) -> Seq<Step> {
    seq![
        Step {
            call: Call::RetrieveProof { id, tx_slate_id },
            failure: Failure::Generic(Context::RetrieveProof),
        },
        Step { call: Call::CreateProofFile, failure: Failure::Generic(Context::CreateFile) },
        Step { call: Call::WriteProof, failure: Failure::Generic(Context::SaveProof) },
        Step { call: Call::SyncProofFile, failure: Failure::Generic(Context::SaveFile) },
    ]
}

/// Fetches a payment proof and writes it to the output file.
pub fn proof_export(args: &ProofExportArgs) -> (plan: Plan)
    ensures
        plan.steps@ == proof_export_plan(args.id, args.tx_slate_id),
        plan.end is None,
{
    Plan::of(
        vec![
            Step {
                call: Call::RetrieveProof { id: args.id, tx_slate_id: args.tx_slate_id },
                failure: Failure::Generic(Context::RetrieveProof),
            },
            Step { call: Call::CreateProofFile, failure: Failure::Generic(Context::CreateFile) },
            Step { call: Call::WriteProof, failure: Failure::Generic(Context::SaveProof) },
            Step { call: Call::SyncProofFile, failure: Failure::Generic(Context::SaveFile) },
        ],
    )
}

/// Proof Verify Args
#[derive(Debug, PartialEq, Eq)]
pub struct ProofVerifyArgs {
    pub input_file: String,
}

/// The calls of `proof_verify`.
pub open spec fn proof_verify_plan() -> Seq<Step> {
    seq![
        wallet(Call::OpenProof, Context::OpenProof),
        wallet(Call::ReadProof, Context::ReadProof),
        wallet(Call::ParseProof, Context::ParseProof),
        wallet(Call::VerifyProof, Context::ProofInvalid),
    ]
}

/// Reads a payment proof from the input file and checks it.
pub fn proof_verify(args: &ProofVerifyArgs) -> (plan: Plan)
    ensures
        plan.steps@ == proof_verify_plan(),
        plan.end is None,
{
    Plan::of(
        vec![
            Step { call: Call::OpenProof, failure: Failure::LibWallet(Context::OpenProof) },
            Step { call: Call::ReadProof, failure: Failure::LibWallet(Context::ReadProof) },
            Step { call: Call::ParseProof, failure: Failure::LibWallet(Context::ParseProof) },
            Step { call: Call::VerifyProof, failure: Failure::LibWallet(Context::ProofInvalid) },
        ],
    )
}

/// A line that `proof_verify` prints about a proof that holds.
#[derive(Clone, Copy, Debug, PartialEq, Eq, Structural)]
pub enum Verdict {
    /// The signatures are valid.
    Valid,
    /// The sender's address is this wallet's.
    Sender,
    /// The recipient's address is this wallet's.
    Recipient,
    /// Neither address is this wallet's.
    Neither,
}

/// The lines for a proof that holds.
pub open spec fn verdicts(iam_sender: bool, iam_recipient: bool) -> Seq<Verdict> {
    seq![Verdict::Valid] + (if iam_sender {
        seq![Verdict::Sender]
    } else {
        seq![]
    }) + (if iam_recipient {
        seq![Verdict::Recipient]
    } else {
        seq![]
    }) + (if !iam_sender && !iam_recipient {
        seq![Verdict::Neither]
    } else {
        seq![]
    })
}

/// What is printed about a proof that holds: that its signatures are
/// valid, then which of its two addresses belong to this wallet, or that
/// neither does.
pub fn proof_verdict(iam_sender: bool, iam_recipient: bool) -> (lines: Vec<Verdict>)
    ensures
        lines@ == verdicts(iam_sender, iam_recipient),
{
    let mut lines: Vec<Verdict> = vec![Verdict::Valid];
    if iam_sender {
        lines.push(Verdict::Sender);
    }
    if iam_recipient {
        lines.push(Verdict::Recipient);
    }
    if !iam_recipient && !iam_sender {
        lines.push(Verdict::Neither);
    }
    assert(lines@ =~= verdicts(iam_sender, iam_recipient));
    lines
}

impl Verdict {
    /// The line as it is printed.
    pub fn text(&self) -> (s: &'static str)
        ensures
            s@ == match self {
                Verdict::Valid => "Payment proof's signatures are valid."@,
                Verdict::Sender => "The proof's sender address belongs to this wallet."@,
                Verdict::Recipient => "The proof's recipient address belongs to this wallet."@,
                Verdict::Neither =>
                    "Neither the proof's sender nor recipient address belongs to this wallet."@,
            },
    {
        match self {
            Verdict::Valid => "Payment proof's signatures are valid.",
            Verdict::Sender => "The proof's sender address belongs to this wallet.",
            Verdict::Recipient => "The proof's recipient address belongs to this wallet.",
            Verdict::Neither =>
                "Neither the proof's sender nor recipient address belongs to this wallet.",
        }
    }
}

/// Writes the wallet's data to the log, or to the file that is named.
pub fn dump_wallet_data(file_name: &Option<String>) -> (plan: Plan)
    ensures
        plan.steps@ == seq![wallet(Call::DumpWalletData, Context::DataDump)],
        plan.end is None,
{
    Plan::of(
        vec![Step { call: Call::DumpWalletData, failure: Failure::LibWallet(Context::DataDump) }],
    )
}

} // verus!
