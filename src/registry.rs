use vstd::prelude::*;
use vstd::string::*;

use crate::rpc::Instance;
use crate::text::{i32_of_text, parse_i32};

verus! {

/// Why this process's own instance could not be described to the registry.
pub enum RegistrationError {
    /// The port part of the server address, given here, is not an `i32`.
    InvalidPort(String),
}

/// Index of the first ':' at or after `from`, or the length when there is none.
pub open spec fn field_end(s: Seq<char>, from: int) -> int
    decreases s.len() - from,
{
    if from >= s.len() {
        s.len() as int
    } else if s[from] == ':' {
        from
    } else {
        field_end(s, from + 1)
    }
}

/// Host part of a server address: the text before the first ':'.
pub open spec fn host_part(addr: Seq<char>) -> Seq<char> {
    addr.take(field_end(addr, 0))
}

/// Port part of a server address: the text between the first and the second
/// ':', or `3000` when there is no ':'.
pub open spec fn port_part(addr: Seq<char>) -> Seq<char> {
    let k = field_end(addr, 0);
    if k == addr.len() {
        "3000"@
    } else {
        addr.subrange(k + 1, field_end(addr, k + 1))
    }
}

proof fn lemma_field_end_bounds(s: Seq<char>, from: int)
    requires
        0 <= from <= s.len(),
    ensures
        from <= field_end(s, from) <= s.len(),
    decreases s.len() - from,
{
    if from < s.len() && s[from] != ':' {
        lemma_field_end_bounds(s, from + 1);
    }
}

fn find_field_end(s: &str, from: usize) -> (r: usize)
    requires
        from <= s@.len(),
    ensures
        r == field_end(s@, from as int),
{
    let n = s.unicode_len();
    let mut i = from;
    while i < n
        invariant
            from <= i <= n,
            n == s@.len(),
            field_end(s@, from as int) == field_end(s@, i as int),
        decreases n - i,
    {
        if s.get_char(i) == ':' {
            return i;
        }
        i += 1;
    }
    i
}

/// This process's own instance, from its server address `host:port`: the
/// host is the text before the first ':', the port the text after it, and
/// port 3000 when the address has no ':'.
pub fn self_instance(server_addr: &str) -> (r: Result<Instance, RegistrationError>)
    ensures
        match i32_of_text(port_part(server_addr@)) {
            Some(p) => r matches Ok(inst) && inst.ip@ == host_part(server_addr@) && inst.port == p,
            None => r matches Err(RegistrationError::InvalidPort(t)) && t@ == port_part(
                server_addr@,
            ),
        },
{
    let n = server_addr.unicode_len();
    let k = find_field_end(server_addr, 0);
    proof {
        lemma_field_end_bounds(server_addr@, 0);
    }
    let ip = String::from_str(server_addr.substring_char(0, k));
    let port_text = if k == n {
        String::from_str("3000")
    } else {
        let e = find_field_end(server_addr, k + 1);
        proof {
            lemma_field_end_bounds(server_addr@, k + 1);
        }
        String::from_str(server_addr.substring_char(k + 1, e))
    };
    match parse_i32(port_text.as_str()) {
        Some(port) => Ok(Instance { ip, port }),
        None => Err(RegistrationError::InvalidPort(port_text)),
    }
}

} // verus!
