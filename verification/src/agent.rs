//! What the guest agent computes from a request before it acts on the
//! guest: the command line and environment of a container's process, and
//! the vsock port that comes along with `Create`.

use std::collections::HashMap;
use vstd::prelude::*;
use vstd::string::StringExecFns;
use vstd::string::StrSliceExecFns;
use crate::api::{self, Command, ErrorView, VmStatus};
use crate::lifecycle::{legal, status_after};
use crate::server::transition;

verus! {

broadcast use vstd::std_specs::hash::group_hash_axioms;

/// The key of the option that carries a container's vsock port.
pub open spec fn vsock_port_key() -> Seq<char> {
    "akari.io/vsock_port"@
}

/// Returns the key of the option that carries a container's vsock port.
pub fn vsock_port_option_key() -> (key: &'static str)
    ensures
        key@ == vsock_port_key(),
{
    "akari.io/vsock_port"
}

/// A port number as four bytes, the least significant first.
pub open spec fn port_bytes(port: u32) -> Seq<u8> {
    seq![
        (port % 256) as u8,
        (port / 256 % 256) as u8,
        (port / 65536 % 256) as u8,
        (port / 16777216) as u8,
    ]
}

/// The port number that four bytes stand for, the least significant first;
/// `None` for any other number of bytes.
pub open spec fn port_of_bytes(bytes: Seq<u8>) -> Option<u32> {
    if bytes.len() == 4 {
        Some((bytes[0] + 256 * bytes[1] + 65536 * bytes[2] + 16777216 * bytes[3]) as u32)
    } else {
        None
    }
}

/// A port number that is written and read comes back as it was.
pub proof fn lemma_port_reads_back(port: u32)
    ensures
        port_of_bytes(port_bytes(port)) == Some(port),
{
    let p = port as int;
    let q1 = p / 256;
    let q2 = p / 65536;
    let q3 = p / 16777216;
    assert(q2 == q1 / 256 && q3 == q2 / 256 && q3 < 256) by (nonlinear_arith)
        requires
            q1 == p / 256,
            q2 == p / 65536,
            q3 == p / 16777216,
            0 <= p < 0x1_0000_0000,
    ;
    assert(p == p % 256 + 256 * q1);
    assert(q1 == q1 % 256 + 256 * q2);
    assert(q2 == q2 % 256 + 256 * q3);
}

/// Four bytes that are read and written come back as they were, and any
/// other number of bytes is not read.
pub proof fn lemma_bytes_read_back(bytes: Seq<u8>)
    ensures
        bytes.len() == 4 ==> port_bytes(port_of_bytes(bytes)->0) == bytes,
        bytes.len() != 4 ==> port_of_bytes(bytes) is None,
{
    if bytes.len() == 4 {
        let b0 = bytes[0] as int;
        let b1 = bytes[1] as int;
        let b2 = bytes[2] as int;
        let b3 = bytes[3] as int;
        let p = b0 + 256 * b1 + 65536 * b2 + 16777216 * b3;
        assert(0 <= p < 0x1_0000_0000);
        assert(p % 256 == b0 && p / 256 == b1 + 256 * b2 + 65536 * b3) by (nonlinear_arith)
            requires
                p == b0 + 256 * (b1 + 256 * b2 + 65536 * b3),
                0 <= b0 < 256,
        ;
        let q1 = b1 + 256 * b2 + 65536 * b3;
        assert(q1 % 256 == b1 && q1 / 256 == b2 + 256 * b3) by (nonlinear_arith)
            requires
                q1 == b1 + 256 * (b2 + 256 * b3),
                0 <= b1 < 256,
        ;
        let q2 = b2 + 256 * b3;
        assert(q2 % 256 == b2 && q2 / 256 == b3) by (nonlinear_arith)
            requires
                q2 == b2 + 256 * b3,
                0 <= b2 < 256,
        ;
        assert(p / 65536 == q2 && p / 16777216 == b3) by (nonlinear_arith)
            requires
                p / 256 == q1,
                q1 / 256 == q2,
                q2 / 256 == b3,
                0 <= p,
        ;
        assert(port_bytes(p as u32) =~= bytes);
    }
}

/// Writes the value of the option that carries a container's vsock port:
/// the port as four bytes, the least significant first.
pub fn vsock_port_option(port: u32) -> (value: Vec<u8>)
    ensures
        value@ == port_bytes(port),
{
    let mut value: Vec<u8> = Vec::new();
    value.push((port % 256) as u8);
    value.push((port / 256 % 256) as u8);
    value.push((port / 65536 % 256) as u8);
    value.push((port / 16777216) as u8);
    proof {
        assert(value@ =~= port_bytes(port));
    }
    value
}

/// Reads the value of the option that carries a container's vsock port.
///
/// Returns `None` unless the value is four bytes long.
pub fn parse_vsock_port_option(value: &[u8]) -> (port: Option<u32>)
    ensures
        port == port_of_bytes(value@),
{
    if value.len() != 4 {
        return None;
    }
    let b0: u32 = value[0] as u32;
    let b1: u32 = value[1] as u32;
    let b2: u32 = value[2] as u32;
    let b3: u32 = value[3] as u32;
    Some(b0 + 256 * b1 + 65536 * b2 + 16777216 * b3)
}

/// Why a container's process cannot be launched as described.
#[derive(Clone, Debug, PartialEq, Eq)]
pub enum Error {
    /// The description names no command.
    NoCommand,
    /// An entry of the environment has no `=`. Its index is given.
    MalformedEnv(usize),
}

/// The index of the first `=` of a text, or the text's length if it has
/// none.
pub open spec fn first_eq(text: Seq<char>) -> int
    decreases text.len(),
{
    if text.len() == 0 || text[0] == '=' {
        0
    } else {
        1 + first_eq(text.drop_first())
    }
}

/// `first_eq` is the least index that holds `=`, and the length of a text
/// without one.
pub proof fn lemma_first_eq(text: Seq<char>, i: int)
    requires
        0 <= i <= text.len(),
        forall|k: int| 0 <= k < i ==> text[k] != '=',
        i < text.len() ==> text[i] == '=',
    ensures
        first_eq(text) == i,
    decreases text.len(),
{
    if text.len() == 0 || text[0] == '=' {
    } else {
        let rest = text.drop_first();
        assert forall|k: int| 0 <= k < i - 1 implies rest[k] != '=' by {
            assert(rest[k] == text[k + 1]);
        }
        lemma_first_eq(rest, i - 1);
    }
}

/// Tells whether a text has a `=`.
pub open spec fn has_eq(text: Seq<char>) -> bool {
    first_eq(text) < text.len()
}

/// The name of an environment entry: what stands before its first `=`.
pub open spec fn env_name(entry: Seq<char>) -> Seq<char> {
    entry.subrange(0, first_eq(entry))
}

/// The value of an environment entry: what stands behind its first `=`.
pub open spec fn env_value(entry: Seq<char>) -> Seq<char>
    recommends
        has_eq(entry),
{
    entry.subrange(first_eq(entry) + 1, entry.len() as int)
}

/// Splits an environment entry at its first `=` into name and value.
///
/// Returns `None` if the entry has no `=`, and in no other case.
pub fn split_env(entry: &str) -> (pair: Option<(String, String)>)
    ensures
        match pair {
            Some((name, value)) => has_eq(entry@) && name@ == env_name(entry@) && value@
                == env_value(entry@),
            None => !has_eq(entry@),
        },
{
    let n = entry.unicode_len();
    let mut i: usize = 0;
    while i < n && entry.get_char(i) != '='
        invariant
            i <= n,
            n == entry@.len(),
            forall|k: int| 0 <= k < i ==> entry@[k] != '=',
        decreases n - i,
    {
        i += 1;
    }
    proof {
        lemma_first_eq(entry@, i as int);
    }
    if i == n {
        return None;
    }
    let name = String::from_str(entry.substring_char(0, i));
    let value = String::from_str(entry.substring_char(i + 1, n));
    Some((name, value))
}

/// How to launch a container's process.
#[derive(Clone, Debug, PartialEq, Eq)]
pub struct Launch {
    /// The program to run.
    pub program: String,
    /// The arguments of the program, without the program itself.
    pub args: Vec<String>,
    /// The working directory.
    pub cwd: String,
    /// The environment as pairs of name and value, in the order of the
    /// description; `None` where the description gives none.
    pub envs: Option<Vec<(String, String)>>,
}

/// The texts of a list of strings.
pub open spec fn texts(list: Seq<String>) -> Seq<Seq<char>> {
    list.map_values(|s: String| s@)
}

/// The texts of a list of pairs of strings.
pub open spec fn pair_texts(list: Seq<(String, String)>) -> Seq<(Seq<char>, Seq<char>)> {
    list.map_values(|p: (String, String)| (p.0@, p.1@))
}

/// The index of the first entry without `=`, or the number of entries if
/// every entry has one.
pub open spec fn first_malformed(env: Seq<Seq<char>>) -> int
    decreases env.len(),
{
    if env.len() == 0 || !has_eq(env[0]) {
        0
    } else {
        1 + first_malformed(env.drop_first())
    }
}

/// `first_malformed` is the least index of an entry without `=`, and the
/// number of entries if there is none.
pub proof fn lemma_first_malformed(env: Seq<Seq<char>>, i: int)
    requires
        0 <= i <= env.len(),
        forall|k: int| 0 <= k < i ==> has_eq(env[k]),
        i < env.len() ==> !has_eq(env[i]),
    ensures
        first_malformed(env) == i,
    decreases env.len(),
{
    if env.len() == 0 || !has_eq(env[0]) {
    } else {
        let rest = env.drop_first();
        assert forall|k: int| 0 <= k < i - 1 implies has_eq(rest[k]) by {
            assert(rest[k] == env[k + 1]);
        }
        lemma_first_malformed(rest, i - 1);
    }
}

/// The pairs of name and value of an environment, in its order.
pub open spec fn env_pairs(env: Seq<Seq<char>>) -> Seq<(Seq<char>, Seq<char>)> {
    env.map_values(|e: Seq<char>| (env_name(e), env_value(e)))
}

impl Launch {
    /// Plans the launch of a container's process from the description of
    /// the process: the first argument is the program, the others are its
    /// arguments; every entry of the environment is split at its first `=`.
    ///
    /// Fails with `NoCommand` if there is no argument, else with
    /// `MalformedEnv` and the index of the first entry of the environment
    /// that has no `=`.
    pub fn plan(cwd: String, args: Option<Vec<String>>, env: Option<Vec<String>>) -> (result:
        Result<Launch, Error>)
        ensures
            match result {
                Ok(launch) => {
                    &&& args is Some
                    &&& args->0@.len() > 0
                    &&& launch.program@ == args->0@[0]@
                    &&& texts(launch.args@) == texts(args->0@).subrange(1, args->0@.len() as int)
                    &&& launch.cwd == cwd
                    &&& match env {
                        Some(entries) => {
                            &&& first_malformed(texts(entries@)) == entries@.len()
                            &&& launch.envs is Some
                            &&& pair_texts(launch.envs->0@) == env_pairs(texts(entries@))
                        },
                        None => launch.envs is None,
                    }
                },
                Err(Error::NoCommand) => args is None || args->0@.len() == 0,
                Err(Error::MalformedEnv(i)) => {
                    &&& args is Some
                    &&& args->0@.len() > 0
                    &&& env is Some
                    &&& i < env->0@.len()
                    &&& i == first_malformed(texts(env->0@))
                },
            },
    {
        let all = match args {
            Some(all) => all,
            None => {
                return Err(Error::NoCommand);
            },
        };
        if all.len() == 0 {
            return Err(Error::NoCommand);
        }
        let program = all[0].clone();
        let mut rest: Vec<String> = Vec::new();
        let mut i: usize = 1;
        while i < all.len()
            invariant
                1 <= i <= all@.len(),
                rest@.len() == i - 1,
                texts(rest@) == texts(all@).subrange(1, i as int),
            decreases all@.len() - i,
        {
            let ghost before = rest@;
            let arg = all[i].clone();
            rest.push(arg);
            proof {
                assert(texts(before) == texts(all@).subrange(1, i as int));
                assert forall|j: int| 0 <= j < rest@.len() implies texts(rest@)[j] == texts(
                    all@,
                ).subrange(1, i + 1)[j] by {
                    if j < before.len() {
                        assert(texts(rest@)[j] == texts(before)[j]);
                    } else {
                        assert(texts(rest@)[j] == arg@);
                        assert(texts(all@)[i as int] == all@[i as int]@);
                    }
                }
                assert(texts(rest@) =~= texts(all@).subrange(1, i + 1));
            }
            i += 1;
        }
        let envs = match env {
            Some(entries) => {
                let mut pairs: Vec<(String, String)> = Vec::new();
                let mut k: usize = 0;
                while k < entries.len()
                    invariant
                        k <= entries@.len(),
                        pairs@.len() == k,
                        args == Some(all),
                        all@.len() > 0,
                        env == Some(entries),
                        forall|j: int| 0 <= j < k ==> has_eq(#[trigger] texts(entries@)[j]),
                        pair_texts(pairs@) == env_pairs(texts(entries@)).subrange(0, k as int),
                    decreases entries@.len() - k,
                {
                    let ghost before = pairs@;
                    proof {
                        assert(texts(entries@)[k as int] == entries@[k as int]@);
                    }
                    match split_env(entries[k].as_str()) {
                        Some(pair) => {
                            pairs.push(pair);
                            proof {
                                assert forall|j: int| 0 <= j < pairs@.len() implies pair_texts(
                                    pairs@,
                                )[j] == env_pairs(texts(entries@)).subrange(0, k + 1)[j] by {
                                    if j < before.len() {
                                        assert(pair_texts(pairs@)[j] == pair_texts(before)[j]);
                                    } else {
                                        assert(pair_texts(pairs@)[j] == (pair.0@, pair.1@));
                                    }
                                }
                                assert(pair_texts(pairs@) =~= env_pairs(texts(entries@)).subrange(
                                    0,
                                    k + 1,
                                ));
                            }
                        },
                        None => {
                            proof {
                                lemma_first_malformed(texts(entries@), k as int);
                            }
                            return Err(Error::MalformedEnv(k));
                        },
                    }
                    k += 1;
                }
                proof {
                    lemma_first_malformed(texts(entries@), k as int);
                    assert(env_pairs(texts(entries@)).subrange(0, k as int) =~= env_pairs(
                        texts(entries@),
                    ));
                }
                Some(pairs)
            },
            None => None,
        };
        Ok(Launch { program, args: rest, cwd, envs })
    }
}

/// The containers of the guest, each known by the vsock port on which the
/// host addresses it, with the status that the agent has brought it to.
pub struct Agent {
    containers: HashMap<u32, VmStatus>,
}

impl View for Agent {
    type V = Map<u32, VmStatus>;

    closed spec fn view(&self) -> Map<u32, VmStatus> {
        self.containers@
    }
}

/// What `accept` answers to the value of the port option of a `Create`, if
/// the value is there.
pub open spec fn accepted(containers: Map<u32, VmStatus>, option: Option<Seq<u8>>) -> Result<
    u32,
    ErrorView,
> {
    match option {
        None => Err(ErrorView::ConfigInvalid),
        Some(value) => match port_of_bytes(value) {
            None => Err(ErrorView::ConfigInvalid),
            Some(port) => if containers.dom().contains(port) {
                Err(ErrorView::ContainerAlreadyExists)
            } else {
                Ok(port)
            },
        },
    }
}

/// What `decide` answers to a request on a port.
pub open spec fn decided(containers: Map<u32, VmStatus>, port: u32, command: Command) -> Result<
    Option<VmStatus>,
    ErrorView,
> {
    if !containers.dom().contains(port) {
        Err(ErrorView::ContainerNotFound)
    } else if command == Command::Create {
        Err(ErrorView::ContainerAlreadyExists)
    } else if !legal(command, containers[port]) {
        Err(ErrorView::UnexpectedContainerStatus(containers[port]))
    } else if command == Command::Delete {
        Ok(None)
    } else {
        Ok(Some(status_after(command, containers[port])))
    }
}

impl Agent {
    /// Makes an agent that knows no container.
    pub fn new() -> (agent: Agent)
        ensures
            agent@ == Map::<u32, VmStatus>::empty(),
    {
        Agent { containers: HashMap::new() }
    }

    /// Returns the status of the container on a port, if there is one.
    pub fn status(&self, port: u32) -> (status: Option<VmStatus>)
        ensures
            status == if self@.dom().contains(port) {
                Some(self@[port])
            } else {
                None
            },
    {
        match self.containers.get(&port) {
            Some(status) => Some(*status),
            None => None,
        }
    }

    /// Decides on a `Create` by the value of its port option: returns the
    /// port on which the new container is to be addressed.
    ///
    /// Fails with `ConfigInvalid` if the option is missing or is not four
    /// bytes long, else with `ContainerAlreadyExists` if the port has a
    /// container. Nothing changes until `commit` is called.
    pub fn accept(&self, option: Option<&[u8]>) -> (result: Result<u32, api::Error>)
        ensures
            match result {
                Ok(port) => accepted(
                    self@,
                    match option {
                        Some(value) => Some(value@),
                        None => None,
                    },
                ) == Ok::<u32, ErrorView>(port),
                Err(e) => accepted(
                    self@,
                    match option {
                        Some(value) => Some(value@),
                        None => None,
                    },
                ) == Err::<u32, ErrorView>(e@),
            },
    {
        let value = match option {
            Some(value) => value,
            None => {
                return Err(api::Error::ConfigInvalid);
            },
        };
        let port = match parse_vsock_port_option(value) {
            Some(port) => port,
            None => {
                return Err(api::Error::ConfigInvalid);
            },
        };
        if self.containers.contains_key(&port) {
            return Err(api::Error::ContainerAlreadyExists);
        }
        Ok(port)
    }

    /// Decides on a request that arrived on a container's port: returns
    /// the status in which the request, once carried out, leaves the
    /// container, or `None` if it removes the container.
    ///
    /// Fails with `ContainerNotFound` if the port has no container, with
    /// `ContainerAlreadyExists` for a `Create`, and with
    /// `UnexpectedContainerStatus` if the request is not legal in the
    /// container's status. Nothing changes until `commit` is called.
    pub fn decide(&self, port: u32, command: Command) -> (result: Result<
        Option<VmStatus>,
        api::Error,
    >)
        ensures
            match result {
                Ok(next) => decided(self@, port, command) == Ok::<Option<VmStatus>, ErrorView>(
                    next,
                ),
                Err(e) => decided(self@, port, command) == Err::<Option<VmStatus>, ErrorView>(e@),
            },
    {
        match self.containers.get(&port) {
            Some(status) => transition(command, *status),
            None => Err(api::Error::ContainerNotFound),
        }
    }

    /// Records that a request was carried out on the guest: the container
    /// on the port has the given status, or is gone if none is given.
    pub fn commit(&mut self, port: u32, next: Option<VmStatus>)
        ensures
            final(self)@ == match next {
                Some(status) => old(self)@.insert(port, status),
                None => old(self)@.remove(port),
            },
    {
        match next {
            Some(status) => {
                self.containers.insert(port, status);
            },
            None => {
                self.containers.remove(&port);
            },
        }
    }
}

} // verus!
