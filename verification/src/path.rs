//! Paths of the Discord IPC endpoints (`discord-ipc-0` .. `discord-ipc-9`).
use vstd::prelude::*;
use vstd::string::*;

use crate::text::{decimal, push_decimal};

verus! {

/// Number of IPC endpoints that a Discord client may listen on.
pub const IPC_SLOTS: usize = 10;

/// The directory used when no candidate for the socket directory is set.
pub open spec fn fallback_temp_dir() -> Seq<char> {
    seq!['/', 't', 'm', 'p']
}

/// The socket directory: the first of `candidates` that is set, in order, or `/tmp`
/// when none is. The candidates are the values of `XDG_RUNTIME_DIR`, `TMPDIR`, `TMP`
/// and `TEMP` and the system's temporary directory, each `None` where it is unset or
/// not Unicode.
pub fn get_temp_path(candidates: &Vec<Option<String>>) -> (dir: String)
    ensures
        (forall|i: int| 0 <= i < candidates@.len() ==> #[trigger] candidates@[i] is None)
            ==> dir@ == fallback_temp_dir(),
        (forall|i: int| 0 <= i < candidates@.len() ==> #[trigger] candidates@[i] is None)
            ==> dir@ == seq!['/', 't', 'm', 'p'],
        forall|i: int|
            0 <= i < candidates@.len() && #[trigger] candidates@[i] is Some && (forall|j: int|
                0 <= j < i ==> candidates@[j] is None) ==> dir@ == candidates@[i]->0@,
{
    let mut i: usize = 0;
    while i < candidates.len()
        invariant
            i <= candidates@.len(),
            forall|j: int| 0 <= j < i ==> #[trigger] candidates@[j] is None,
        decreases candidates@.len() - i,
    {
        match &candidates[i] {
            Some(dir) => {
                return dir.clone();
            },
            None => {},
        }
        i = i + 1;
    }
    let fallback = "/tmp";
    proof {
        reveal_strlit("/tmp");
    }
    String::from_str(fallback)
}

/// Where the IPC endpoints live on this platform.
#[derive(Debug, Clone)]
pub enum IpcRoot {
    /// Windows named pipes, under `\\.\pipe\`.
    NamedPipe,
    /// A Unix socket directory, given without its trailing `/`.
    TempDir(String),
}

/// The prefix of every endpoint path under `root`.
pub open spec fn root_prefix(root: IpcRoot) -> Seq<char> {
    match root {
        IpcRoot::NamedPipe => seq!['\\', '\\', '.', '\\', 'p', 'i', 'p', 'e', '\\'],
        IpcRoot::TempDir(dir) => dir@.push('/'),
    }
}

/// The file name of endpoint `num`: `discord-ipc-` and the number in decimal.
pub open spec fn endpoint_name(num: nat) -> Seq<char> {
    seq!['d', 'i', 's', 'c', 'o', 'r', 'd', '-', 'i', 'p', 'c', '-'] + decimal(num)
}

/// The full path of endpoint `num` under `root`.
pub open spec fn endpoint_path(num: nat, root: IpcRoot) -> Seq<char> {
    root_prefix(root) + endpoint_name(num)
}

/// Distinct endpoints have distinct paths under the same root, so that trying the
/// endpoints one after the other never tries one twice.
pub proof fn lemma_endpoint_paths_distinct(i: nat, j: nat, root: IpcRoot)
    requires
        i < 10,
        j < 10,
        i != j,
    ensures
        endpoint_path(i, root) != endpoint_path(j, root),
{
    let p = root_prefix(root);
    let k: int = p.len() as int + 12;
    assert(decimal(i) == seq![(48 + i) as char]);
    assert(decimal(j) == seq![(48 + j) as char]);
    assert(endpoint_path(i, root)[k] == (48 + i) as char);
    assert(endpoint_path(j, root)[k] == (48 + j) as char);
}

/// Under a socket directory, the path of endpoint `num` is the directory, taken as
/// it is, one `/`, then `discord-ipc-` and the digit of `num`; on Windows it is the
/// named pipe `\\.\pipe\discord-ipc-` and the digit.
pub proof fn lemma_endpoint_path_text(num: nat, root: IpcRoot)
    requires
        num < 10,
    ensures
        root matches IpcRoot::TempDir(dir) ==> endpoint_path(num, root) == dir@ + seq![
            '/',
            'd',
            'i',
            's',
            'c',
            'o',
            'r',
            'd',
            '-',
            'i',
            'p',
            'c',
            '-',
            (48 + num) as char,
        ],
        root is NamedPipe ==> endpoint_path(num, root) == seq![
            '\\',
            '\\',
            '.',
            '\\',
            'p',
            'i',
            'p',
            'e',
            '\\',
            'd',
            'i',
            's',
            'c',
            'o',
            'r',
            'd',
            '-',
            'i',
            'p',
            'c',
            '-',
            (48 + num) as char,
        ],
{
    assert(decimal(num) == seq![(48 + num) as char]);
    match root {
        IpcRoot::TempDir(dir) => {
            assert(endpoint_path(num, root) =~= dir@ + seq![
                '/',
                'd',
                'i',
                's',
                'c',
                'o',
                'r',
                'd',
                '-',
                'i',
                'p',
                'c',
                '-',
                (48 + num) as char,
            ]);
        },
        IpcRoot::NamedPipe => {
            assert(endpoint_path(num, root) =~= seq![
                '\\',
                '\\',
                '.',
                '\\',
                'p',
                'i',
                'p',
                'e',
                '\\',
                'd',
                'i',
                's',
                'c',
                'o',
                'r',
                'd',
                '-',
                'i',
                'p',
                'c',
                '-',
                (48 + num) as char,
            ]);
        },
    }
}

/// Why an endpoint path could not be formed.
#[derive(Debug, Clone, Copy, PartialEq, Eq, Structural)]
pub enum PathError {
    /// Discord only ever opens endpoints 0 to 9.
    SlotOutOfRange,
}

/// The path of IPC endpoint `num` under `root`; endpoints above 9 do not exist.
pub fn get_path(num: usize, root: &IpcRoot) -> (r: Result<String, PathError>)
    ensures
        num > 9 <==> r is Err,
        r matches Ok(p) ==> p@ == endpoint_path(num as nat, *root),
        r matches Err(e) ==> e == PathError::SlotOutOfRange,
        r is Ok ==> (*root matches IpcRoot::TempDir(dir) ==> r->Ok_0@ == dir@ + seq![
            '/',
            'd',
            'i',
            's',
            'c',
            'o',
            'r',
            'd',
            '-',
            'i',
            'p',
            'c',
            '-',
            (48 + num) as char,
        ]),
        r is Ok ==> (*root is NamedPipe ==> r->Ok_0@ == seq![
            '\\',
            '\\',
            '.',
            '\\',
            'p',
            'i',
            'p',
            'e',
            '\\',
            'd',
            'i',
            's',
            'c',
            'o',
            'r',
            'd',
            '-',
            'i',
            'p',
            'c',
            '-',
            (48 + num) as char,
        ]),
{
    if num > 9 {
        return Err(PathError::SlotOutOfRange);
    }
    let mut path = match root {
        IpcRoot::NamedPipe => {
            let p = "\\\\.\\pipe\\";
            proof {
                reveal_strlit("\\\\.\\pipe\\");
            }
            String::from_str(p)
        },
        IpcRoot::TempDir(dir) => {
            let mut p = dir.clone();
            let slash = "/";
            proof {
                reveal_strlit("/");
            }
            p.append(slash);
            p
        },
    };
    let name = "discord-ipc-";
    proof {
        reveal_strlit("discord-ipc-");
    }
    path.append(name);
    push_decimal(&mut path, num as u64);
    assert(path@ =~= endpoint_path(num as nat, *root));
    proof {
        lemma_endpoint_path_text(num as nat, *root);
    }
    Ok(path)
}

/// The attempts to connect to a Discord client: one per endpoint, `discord-ipc-0`
/// first, until one answers or all ten have been tried.
pub struct ConnectAttempts {
    next: usize,
}

impl View for ConnectAttempts {
    type V = nat;

    /// How many attempts have been made.
    closed spec fn view(&self) -> nat {
        self.next as nat
    }
}

impl ConnectAttempts {
    /// No attempt made yet.
    pub fn new() -> (a: Self)
        ensures
            a@ == 0,
    {
        ConnectAttempts { next: 0 }
    }

    /// The path of the next endpoint to try, or `None` once every endpoint has been
    /// tried, when connecting has failed.
    pub fn next_path(&mut self, root: &IpcRoot) -> (p: Option<String>)
        ensures
            old(self)@ < IPC_SLOTS ==> (p matches Some(path) && path@ == endpoint_path(
                old(self)@,
                *root,
            ) && final(self)@ == old(self)@ + 1),
            old(self)@ >= IPC_SLOTS ==> p is None && final(self)@ == old(self)@,
    {
        if self.next < IPC_SLOTS {
            match get_path(self.next, root) {
                Ok(path) => {
                    self.next = self.next + 1;
                    Some(path)
                },
                Err(_) => None,
            }
        } else {
            None
        }
    }
}

} // verus!
