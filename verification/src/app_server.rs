//! Where the app's own socket lives, and the pipe name used in its place on
//! systems without Unix sockets.

use vstd::prelude::*;
use vstd::string::*;

verus! {

/// What is known of the bus socket's location.
pub enum BusSocketDir {
    /// The bus socket variable is not set.
    Unset,
    /// The bus socket path has no parent directory.
    NoParent,
    /// The directory that holds the bus socket.
    Parent(String),
}

/// Why no socket path could be chosen.
pub enum SocketPathError {
    BusSocketUnset,
    NoParent,
}

impl SocketPathError {
    /// The message reported for the error.
    pub fn message(&self) -> (m: String)
        ensures
            m@ == match self {
                SocketPathError::BusSocketUnset => "TOKIMO_BUS_SOCKET not set"@,
                SocketPathError::NoParent => "TOKIMO_BUS_SOCKET has no parent"@,
            },
    {
        match self {
            SocketPathError::BusSocketUnset => String::from_str("TOKIMO_BUS_SOCKET not set"),
            SocketPathError::NoParent => String::from_str("TOKIMO_BUS_SOCKET has no parent"),
        }
    }
}

/// A socket file `file_name` in the directory `subdir` under `bus_dir`.
pub struct SocketLocation {
    pub bus_dir: String,
    pub subdir: String,
    pub file_name: String,
}

/// `res` places `file_name` in `apps` beside the bus socket, or says why not.
pub open spec fn places_in_apps_dir(bus: BusSocketDir, file_name: Seq<char>, res: Result<SocketLocation, SocketPathError>) -> bool {
    match bus {
        BusSocketDir::Unset => res matches Err(SocketPathError::BusSocketUnset),
        BusSocketDir::NoParent => res matches Err(SocketPathError::NoParent),
        BusSocketDir::Parent(d) => res matches Ok(loc) && loc.bus_dir == d && loc.subdir@ == "apps"@
            && loc.file_name@ == file_name,
    }
}

/// Places a socket file in the `apps` directory beside the bus socket.
pub fn socket_in_apps_dir(bus: BusSocketDir, file_name: String) -> (res: Result<SocketLocation, SocketPathError>)
    ensures
        places_in_apps_dir(bus, file_name@, res),
{
    match bus {
        BusSocketDir::Unset => Err(SocketPathError::BusSocketUnset),
        BusSocketDir::NoParent => Err(SocketPathError::NoParent),
        BusSocketDir::Parent(d) => Ok(SocketLocation { bus_dir: d, subdir: String::from_str("apps"), file_name }),
    }
}

/// The app socket of `service`: `<bus dir>/apps/<service>.sock`.
pub fn default_socket_path(bus: BusSocketDir, service: &str) -> (res: Result<SocketLocation, SocketPathError>)
    ensures
        places_in_apps_dir(bus, service@ + ".sock"@, res),
{
    proof {
        reveal_strlit(".sock");
    }
    socket_in_apps_dir(bus, String::from_str(service).concat(".sock"))
}

/// The character for a decimal digit.
pub open spec fn digit_char(d: nat) -> char {
    (d + 48) as char
}

/// `n` in decimal, without leading zeros.
pub open spec fn decimal(n: nat) -> Seq<char>
    decreases n,
{
    if n < 10 {
        seq![digit_char(n)]
    } else {
        decimal(n / 10).push(digit_char(n % 10))
    }
}

fn digit_str(d: u32) -> (s: &'static str)
    requires
        d < 10,
    ensures
        s@ == seq![digit_char(d as nat)],
{
    proof {
        reveal_strlit("0");
        reveal_strlit("1");
        reveal_strlit("2");
        reveal_strlit("3");
        reveal_strlit("4");
        reveal_strlit("5");
        reveal_strlit("6");
        reveal_strlit("7");
        reveal_strlit("8");
        reveal_strlit("9");
    }
    if d == 0 {
        "0"
    } else if d == 1 {
        "1"
    } else if d == 2 {
        "2"
    } else if d == 3 {
        "3"
    } else if d == 4 {
        "4"
    } else if d == 5 {
        "5"
    } else if d == 6 {
        "6"
    } else if d == 7 {
        "7"
    } else if d == 8 {
        "8"
    } else {
        "9"
    }
}

/// Writes `n` in decimal.
pub fn decimal_string(n: u32) -> (s: String)
    ensures
        s@ == decimal(n as nat),
    decreases n,
{
    if n < 10 {
        String::from_str(digit_str(n))
    } else {
        let head = decimal_string(n / 10);
        let res = head.concat(digit_str(n % 10));
        proof {
            assert(res@ =~= decimal(n as nat));
        }
        res
    }
}

/// The named pipe of `service` in the process `pid`: `tokimo-app-<service>-<pid>`.
pub fn default_pipe_name(service: &str, pid: u32) -> (name: String)
    ensures
        name@ == "tokimo-app-"@ + service@ + "-"@ + decimal(pid as nat),
{
    proof {
        reveal_strlit("tokimo-app-");
        reveal_strlit("-");
    }
    let digits = decimal_string(pid);
    String::from_str("tokimo-app-").concat(service).concat("-").concat(digits.as_str())
}

} // verus!
