//! Provisioning of one node: an address from the pool, then the commands
//! that issue and package the node's credentials.
//!
//! The manager does not run anything itself. [`NodeMNG::get_node`] takes the
//! address and returns a [`Provision`], which says stage by stage what is to
//! be run; the caller runs it and reports the outcome to
//! [`Provision::advance`], which decides how the call goes on or ends.

use crate::cidr::{v4_size, Address, Cidr, Network};
use crate::ippool::{lemma_absent_address_is_not_served, IpPool, IpPoolError, PoolState};
use vstd::pervasive::unreached;
use vstd::prelude::*;
use vstd::string::StringExecFns;

verus! {

/// The address of the network that a manager without a pool of its own
/// allocates from: 192.168.0.2.
pub const DEFAULT_ADDRESS: u32 = 0xC0A8_0002;

/// The prefix length of that network.
pub const DEFAULT_PREFIX: u8 = 24;

/// The offset at which such a manager's pool starts.
pub const DEFAULT_OFFSET: usize = 1;

/// Why a node could not be provisioned.
#[derive(Debug)]
pub enum NodeError {
    /// The pool of addresses could not be made.
    IPErrorCreat(IpPoolError),
    /// The pool has no address to give.
    IPErrorEmpty,
    /// The CA certificate, the CA key or the configuration file is missing.
    CrtErrorPathNotExist,
    /// Issuing or packaging the credentials failed; the cause is kept.
    CrtErrorCreat(String),
}

impl NodeError {
    /// Whether `text` is the error in words.
    pub open spec fn is_message(self, text: String) -> bool {
        match self {
            NodeError::IPErrorEmpty => text@ == "No ip"@,
            NodeError::CrtErrorPathNotExist => text@ == "ca crt, key or cfg file not exist"@,
            NodeError::IPErrorCreat(err) => err.is_message(text),
            NodeError::CrtErrorCreat(cause) => text@ == cause@,
        }
    }

    /// The error in words.
    pub fn message(&self) -> (text: String)
        ensures
            self.is_message(text),
    {
        match self {
            NodeError::IPErrorEmpty => "No ip".to_string(),
            NodeError::CrtErrorPathNotExist => "ca crt, key or cfg file not exist".to_string(),
            NodeError::IPErrorCreat(err) => err.message(),
            NodeError::CrtErrorCreat(cause) => cause.clone(),
        }
    }
}

/// Which of the three files that a manager needs were found on disk.
#[derive(Clone, Copy, Debug)]
pub struct FilesFound {
    pub cacrt: bool,
    pub cakey: bool,
    pub cfg: bool,
}

/// The texts of a list of strings.
pub open spec fn texts(args: Seq<String>) -> Seq<Seq<char>> {
    args.map_values(|arg: String| arg@)
}

/// The program and arguments that remove a node's directory.
pub open spec fn clear_args(name: Seq<char>) -> Seq<Seq<char>> {
    seq!["rm"@, "-rf"@, name]
}

/// The program and arguments that make a node's directory.
pub open spec fn make_dir_args(name: Seq<char>) -> Seq<Seq<char>> {
    seq!["mkdir"@, "-p"@, name]
}

/// The program and arguments that issue a node's certificate and key: the
/// CA's certificate and key, the node's name and address, and the two files
/// to write, both in the node's directory.
pub open spec fn sign_args(
    cacrt: Seq<char>,
    cakey: Seq<char>,
    name: Seq<char>,
    ip: Seq<char>,
) -> Seq<Seq<char>> {
    seq![
        "nebula-cert"@,
        "sign"@,
        "-ca-crt"@,
        cacrt,
        "-ca-key"@,
        cakey,
        "-name"@,
        name,
        "-ip"@,
        ip,
        "-out-crt"@,
        "./"@ + name + "/host.crt"@,
        "-out-key"@,
        "./"@ + name + "/host.key"@,
    ]
}

/// The program and arguments that copy the configuration file into a
/// node's directory.
pub open spec fn copy_args(cfg: Seq<char>, name: Seq<char>) -> Seq<Seq<char>> {
    seq!["cp"@, cfg, name + "/"@]
}

/// The program and arguments that write a compressed archive of a node's
/// directory to their output.
pub open spec fn archive_args(name: Seq<char>) -> Seq<Seq<char>> {
    seq!["tar"@, "-zcf"@, "-"@, name]
}

/// The program and arguments that encode their input as one line of text.
pub open spec fn encode_args() -> Seq<Seq<char>> {
    seq!["base64"@, "-w"@, "0"@]
}

/// Builds [`clear_args`].
pub fn clear_command(name: &str) -> (args: Vec<String>)
    ensures
        texts(args@) == clear_args(name@),
{
    let mut args: Vec<String> = Vec::new();
    args.push("rm".to_string());
    args.push("-rf".to_string());
    args.push(name.to_string());
    assert(texts(args@) =~= clear_args(name@));
    args
}

/// Builds [`make_dir_args`].
pub fn make_dir_command(name: &str) -> (args: Vec<String>)
    ensures
        texts(args@) == make_dir_args(name@),
{
    let mut args: Vec<String> = Vec::new();
    args.push("mkdir".to_string());
    args.push("-p".to_string());
    args.push(name.to_string());
    assert(texts(args@) =~= make_dir_args(name@));
    args
}

/// Builds [`sign_args`].
pub fn sign_command(cacrt: &str, cakey: &str, name: &str, ip: &str) -> (args: Vec<String>)
    ensures
        texts(args@) == sign_args(cacrt@, cakey@, name@, ip@),
{
    let mut out_crt: String = String::from_str("./");
    out_crt.append(name);
    out_crt.append("/host.crt");
    let mut out_key: String = String::from_str("./");
    out_key.append(name);
    out_key.append("/host.key");
    let mut args: Vec<String> = Vec::new();
    args.push("nebula-cert".to_string());
    args.push("sign".to_string());
    args.push("-ca-crt".to_string());
    args.push(cacrt.to_string());
    args.push("-ca-key".to_string());
    args.push(cakey.to_string());
    args.push("-name".to_string());
    args.push(name.to_string());
    args.push("-ip".to_string());
    args.push(ip.to_string());
    args.push("-out-crt".to_string());
    args.push(out_crt);
    args.push("-out-key".to_string());
    args.push(out_key);
    assert(texts(args@) =~= sign_args(cacrt@, cakey@, name@, ip@));
    args
}

/// Builds [`copy_args`].
pub fn copy_command(cfg: &str, name: &str) -> (args: Vec<String>)
    ensures
        texts(args@) == copy_args(cfg@, name@),
{
    let mut dir: String = String::from_str(name);
    dir.append("/");
    let mut args: Vec<String> = Vec::new();
    args.push("cp".to_string());
    args.push(cfg.to_string());
    args.push(dir);
    assert(texts(args@) =~= copy_args(cfg@, name@));
    args
}

/// Builds [`archive_args`].
pub fn archive_command(name: &str) -> (args: Vec<String>)
    ensures
        texts(args@) == archive_args(name@),
{
    let mut args: Vec<String> = Vec::new();
    args.push("tar".to_string());
    args.push("-zcf".to_string());
    args.push("-".to_string());
    args.push(name.to_string());
    assert(texts(args@) =~= archive_args(name@));
    args
}

/// Builds [`encode_args`].
pub fn encode_command() -> (args: Vec<String>)
    ensures
        texts(args@) == encode_args(),
{
    let mut args: Vec<String> = Vec::new();
    args.push("base64".to_string());
    args.push("-w".to_string());
    args.push("0".to_string());
    assert(texts(args@) =~= encode_args());
    args
}

/// How far the provisioning of a node has come: what is to be run next.
#[derive(Clone, Copy, Debug, PartialEq, Eq, Structural)]
pub enum Stage {
    /// Remove what an earlier call left in the node's directory.
    Clear,
    /// Make the node's directory.
    MakeDir,
    /// Issue the node's certificate and key.
    Sign,
    /// Copy the shared configuration file into the directory.
    CopyConfig,
    /// Pack the directory into one text.
    Package,
}

/// What the caller is to run.
#[derive(Debug)]
pub enum Action {
    /// Run the program with its arguments. Only whether it succeeded
    /// matters.
    Run(Vec<String>),
    /// Run the first program, feed what it writes to the second, and keep
    /// what the second writes.
    Pipe(Vec<String>, Vec<String>),
}

/// What running an [`Action`] gave.
#[derive(Debug)]
pub enum Outcome {
    /// It succeeded; this is what was kept of its output.
    Success(String),
    /// It failed; this is the cause in words.
    Failure(String),
}

/// How a provisioning call goes on after an outcome.
#[derive(Debug)]
pub enum Step {
    /// There is more to run.
    Continue(Provision),
    /// The call has ended, with the packaged credentials or an error.
    Done(Result<String, NodeError>),
}

/// A provisioning call under way: the node's name, the address taken for
/// it, the files to use, and the stage reached.
#[derive(Debug)]
pub struct Provision {
    pub name: String,
    pub address: Network,
    pub cacrt_path: String,
    pub cakey_path: String,
    pub cfg_path: String,
    pub stage: Stage,
}

impl Provision {
    /// The program and arguments of the current stage; for the last stage,
    /// those of the archiver.
    pub open spec fn args(self) -> Seq<Seq<char>> {
        match self.stage {
            Stage::Clear => clear_args(self.name@),
            Stage::MakeDir => make_dir_args(self.name@),
            Stage::Sign => sign_args(
                self.cacrt_path@,
                self.cakey_path@,
                self.name@,
                self.address@.text(),
            ),
            Stage::CopyConfig => copy_args(self.cfg_path@, self.name@),
            Stage::Package => archive_args(self.name@),
        }
    }

    /// How the call goes on after `outcome`. Clearing and making the
    /// directory may fail without consequence. A failure of any later stage
    /// ends the call with its cause. The output of the last stage is the
    /// result of the call.
    pub open spec fn next(self, outcome: Outcome) -> Step {
        match (self.stage, outcome) {
            (Stage::Clear, _) => Step::Continue(Provision { stage: Stage::MakeDir, ..self }),
            (Stage::MakeDir, _) => Step::Continue(Provision { stage: Stage::Sign, ..self }),
            (Stage::Sign, Outcome::Success(_)) => Step::Continue(
                Provision { stage: Stage::CopyConfig, ..self },
            ),
            (Stage::CopyConfig, Outcome::Success(_)) => Step::Continue(
                Provision { stage: Stage::Package, ..self },
            ),
            (Stage::Package, Outcome::Success(output)) => Step::Done(Ok(output)),
            (_, Outcome::Failure(cause)) => Step::Done(Err(NodeError::CrtErrorCreat(cause))),
        }
    }

    /// What is to be run at the current stage.
    pub fn action(&self) -> (action: Action)
        ensures
            match action {
                Action::Run(args) => self.stage != Stage::Package && texts(args@) == self.args(),
                Action::Pipe(args, filter) => {
                    &&& self.stage == Stage::Package
                    &&& texts(args@) == self.args()
                    &&& texts(filter@) == encode_args()
                },
            },
    {
        match self.stage {
            Stage::Clear => Action::Run(clear_command(self.name.as_str())),
            Stage::MakeDir => Action::Run(make_dir_command(self.name.as_str())),
            Stage::Sign => {
                let ip: String = self.address.to_text();
                Action::Run(
                    sign_command(
                        self.cacrt_path.as_str(),
                        self.cakey_path.as_str(),
                        self.name.as_str(),
                        ip.as_str(),
                    ),
                )
            },
            Stage::CopyConfig => Action::Run(
                copy_command(self.cfg_path.as_str(), self.name.as_str()),
            ),
            Stage::Package => Action::Pipe(archive_command(self.name.as_str()), encode_command()),
        }
    }

    /// Takes the outcome of the current stage's action and decides how the
    /// call goes on.
    pub fn advance(self, outcome: Outcome) -> (step: Step)
        ensures
            step == self.next(outcome),
    {
        match self.stage {
            Stage::Clear => Step::Continue(Provision { stage: Stage::MakeDir, ..self }),
            Stage::MakeDir => Step::Continue(Provision { stage: Stage::Sign, ..self }),
            Stage::Sign => match outcome {
                Outcome::Success(_) => Step::Continue(
                    Provision { stage: Stage::CopyConfig, ..self },
                ),
                Outcome::Failure(cause) => Step::Done(Err(NodeError::CrtErrorCreat(cause))),
            },
            Stage::CopyConfig => match outcome {
                Outcome::Success(_) => Step::Continue(Provision { stage: Stage::Package, ..self }),
                Outcome::Failure(cause) => Step::Done(Err(NodeError::CrtErrorCreat(cause))),
            },
            Stage::Package => match outcome {
                Outcome::Success(output) => Step::Done(Ok(output)),
                Outcome::Failure(cause) => Step::Done(Err(NodeError::CrtErrorCreat(cause))),
            },
        }
    }
}

/// What a manager is: the three files it uses and its pool.
pub struct ManagerState {
    pub cacrt_path: Seq<char>,
    pub cakey_path: Seq<char>,
    pub cfg_path: Seq<char>,
    pub pool: PoolState,
}

impl ManagerState {
    /// The pool of a manager that was given none: it walks the default
    /// network from the default offset.
    pub open spec fn default_pool() -> PoolState {
        PoolState::fresh(
            Cidr { ip: Address::V4(DEFAULT_ADDRESS), prefix: DEFAULT_PREFIX },
            DEFAULT_OFFSET as nat,
        )
    }
}

/// The address that a call took stays out of the pool, however the call
/// ends: no outcome of a stage hands it back. So, as long as the pool does
/// not hold the address a second time and nobody recycles it, no later
/// allocation returns it. Here `before` is the manager when the call began,
/// and `after` the manager as [`NodeMNG::get_node`] left it.
pub proof fn lemma_taken_address_stays_out(
    before: ManagerState,
    after: ManagerState,
    call: Provision,
    later: nat,
)
    requires
        before.pool.next_address() == Some(call.address@),
        after == (ManagerState { pool: before.pool.allocate(), ..before }),
        !after.pool.holds(call.address@.ip),
    ensures
        after.pool.allocate_times(later).next_address() != Some(call.address@),
{
    lemma_absent_address_is_not_served(after.pool, call.address@.ip, later);
}

/// The manager of a network's nodes: it allocates each node's address and
/// says how its credentials are issued.
pub struct NodeMNG<'a> {
    cacrt_path: &'a str,
    cakey_path: &'a str,
    cfg_path: &'a str,
    ip_pool: IpPool,
}

impl<'a> View for NodeMNG<'a> {
    type V = ManagerState;

    closed spec fn view(&self) -> ManagerState {
        ManagerState {
            cacrt_path: self.cacrt_path@,
            cakey_path: self.cakey_path@,
            cfg_path: self.cfg_path@,
            pool: self.ip_pool@,
        }
    }
}

impl<'a> NodeMNG<'a> {
    /// A manager that uses the three files and allocates from the pool
    /// given, or from the default pool where none is given. It is refused
    /// where one of the files was not found.
    pub fn new(
        cacrt_path: &'a str,
        cakey_path: &'a str,
        cfg_path: &'a str,
        found: FilesFound,
        ip_pool_op: Option<IpPool>,
    ) -> (manager: Result<NodeMNG<'a>, NodeError>)
        ensures
            match manager {
                Ok(m) => {
                    &&& found.cacrt && found.cakey && found.cfg
                    &&& m@.cacrt_path == cacrt_path@
                    &&& m@.cakey_path == cakey_path@
                    &&& m@.cfg_path == cfg_path@
                    &&& m@.pool == match ip_pool_op {
                        Some(pool) => pool@,
                        None => ManagerState::default_pool(),
                    }
                },
                Err(NodeError::CrtErrorPathNotExist) => !(found.cacrt && found.cakey && found.cfg),
                Err(_) => false,
            },
    {
        if !found.cacrt || !found.cakey || !found.cfg {
            return Err(NodeError::CrtErrorPathNotExist);
        }
        let ip_pool: IpPool = match ip_pool_op {
            Some(ipp) => ipp,
            None => {
                assert(v4_size(24) == 256) by (bit_vector);
                match Network::new(Address::V4(DEFAULT_ADDRESS), DEFAULT_PREFIX) {
                    Some(net) => match IpPool::new(net, DEFAULT_OFFSET) {
                        Ok(pool) => pool,
                        Err(e) => {
                            return Err(NodeError::IPErrorCreat(e));
                        },
                    },
                    None => unreached(),
                }
            },
        };
        Ok(NodeMNG { cacrt_path, cakey_path, cfg_path, ip_pool })
    }

    /// Begins the provisioning of a node: takes the next address out of the
    /// pool and returns the call at its first stage. The call is refused
    /// where the pool gives no address. The address stays out of the pool
    /// however the call ends.
    pub fn get_node(&mut self, name: &str) -> (call: Result<Provision, NodeError>)
        ensures
            final(self)@ == (ManagerState { pool: old(self)@.pool.allocate(), ..old(self)@ }),
            match call {
                Ok(p) => {
                    &&& old(self)@.pool.next_address() == Some(p.address@)
                    &&& p.name@ == name@
                    &&& p.cacrt_path@ == old(self)@.cacrt_path
                    &&& p.cakey_path@ == old(self)@.cakey_path
                    &&& p.cfg_path@ == old(self)@.cfg_path
                    &&& p.stage == Stage::Clear
                },
                Err(NodeError::IPErrorEmpty) => old(self)@.pool.next_address() is None,
                Err(_) => false,
            },
    {
        let address: Network = match self.ip_pool.new_addr() {
            Some(ip) => ip,
            None => {
                return Err(NodeError::IPErrorEmpty);
            },
        };
        Ok(
            Provision {
                name: name.to_string(),
                address,
                cacrt_path: self.cacrt_path.to_string(),
                cakey_path: self.cakey_path.to_string(),
                cfg_path: self.cfg_path.to_string(),
                stage: Stage::Clear,
            },
        )
    }
}

} // verus!
