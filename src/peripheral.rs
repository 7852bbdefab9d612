//! The peripherals a user can pick, and the serial run.
use vstd::prelude::*;
use crate::attrs::{LinkConfig, B115200};
use crate::link::{Opener, OpenPhase, Serial};

verus! {

/// A peripheral that can be driven.
#[derive(Clone, Copy, Debug, PartialEq, Eq, Structural)]
pub enum Peripheral {
    Serial,
}

/// Why a peripheral name was not taken.
#[derive(Clone, Copy, Debug, PartialEq, Eq, Structural)]
pub enum PiSaysError {
    UnknownPeripheral,
}

/// A character with the Unicode White_Space property.
pub open spec fn is_white_space(c: char) -> bool {
    ||| '\u{9}' <= c && c <= '\u{d}'
    ||| c == ' '
    ||| c == '\u{85}'
    ||| c == '\u{a0}'
    ||| c == '\u{1680}'
    ||| '\u{2000}' <= c && c <= '\u{200a}'
    ||| c == '\u{2028}'
    ||| c == '\u{2029}'
    ||| c == '\u{202f}'
    ||| c == '\u{205f}'
    ||| c == '\u{3000}'
}

/// `s` without its leading white space.
pub open spec fn trim_start(s: Seq<char>) -> Seq<char>
    decreases s.len(),
{
    if s.len() > 0 && is_white_space(s[0]) {
        trim_start(s.drop_first())
    } else {
        s
    }
}

/// `s` without its trailing white space.
pub open spec fn trim_end(s: Seq<char>) -> Seq<char>
    decreases s.len(),
{
    if s.len() > 0 && is_white_space(s.last()) {
        trim_end(s.drop_last())
    } else {
        s
    }
}

/// `s` without its leading and trailing white space.
pub open spec fn trimmed(s: Seq<char>) -> Seq<char> {
    trim_end(trim_start(s))
}

/// Relies on `str::trim`: the string without leading and trailing characters
/// of the Unicode White_Space property.
#[verifier::external_body]
fn trim_white_space<'a>(s: &'a str) -> (r: &'a str)
    ensures
        r@ == trimmed(s@),
{
    s.trim()
}

pub open spec fn is_ascii_upper(c: char) -> bool {
    'A' <= c && c <= 'Z'
}

/// Two characters are equal once ASCII letters are folded to one case.
pub open spec fn same_ignoring_ascii_case(a: char, b: char) -> bool {
    ||| a == b
    ||| is_ascii_upper(a) && b as u32 == a as u32 + 32
    ||| is_ascii_upper(b) && a as u32 == b as u32 + 32
}

pub open spec fn eq_ignoring_ascii_case(s: Seq<char>, t: Seq<char>) -> bool {
    &&& s.len() == t.len()
    &&& forall|i: int| 0 <= i < s.len() ==> same_ignoring_ascii_case(#[trigger] s[i], t[i])
}

pub open spec fn serial_name() -> Seq<char> {
    seq!['S', 'e', 'r', 'i', 'a', 'l']
}

/// The name each peripheral is shown under.
pub open spec fn name_of(p: Peripheral) -> Seq<char> {
    match p {
        Peripheral::Serial => serial_name(),
    }
}

/// The peripheral that a name stands for, if any.
pub open spec fn peripheral_named(t: Seq<char>) -> Option<Peripheral> {
    if eq_ignoring_ascii_case(t, serial_name()) {
        Some(Peripheral::Serial)
    } else {
        None
    }
}

fn same_char_ignoring_ascii_case(a: char, b: char) -> (r: bool)
    ensures
        r == same_ignoring_ascii_case(a, b),
{
    let x = a as u32;
    let y = b as u32;
    x == y || ('A' <= a && a <= 'Z' && y == x + 32) || ('A' <= b && b <= 'Z' && x == y + 32)
}

/// Matches an already trimmed name against the known peripherals, ignoring
/// ASCII case.
pub fn peripheral_of_name(t: &str) -> (r: Option<Peripheral>)
    ensures
        r == peripheral_named(t@),
{
    let name = "Serial";
    proof {
        reveal_strlit("Serial");
    }
    assert(name@ == serial_name());
    let n = t.unicode_len();
    if n != 6 {
        return None;
    }
    let mut i: usize = 0;
    while i < 6
        invariant
            n == t@.len(),
            n == 6,
            name@ == serial_name(),
            i <= 6,
            forall|j: int| 0 <= j < i ==> same_ignoring_ascii_case(#[trigger] t@[j], serial_name()[j]),
        decreases 6 - i,
    {
        if !same_char_ignoring_ascii_case(t.get_char(i), name.get_char(i)) {
            return None;
        }
        i = i + 1;
    }
    Some(Peripheral::Serial)
}

impl Peripheral {
    /// Reads a peripheral from its name, ignoring surrounding white space and
    /// ASCII case.
    pub fn parse(s: &str) -> (r: Result<Peripheral, PiSaysError>)
        ensures
            peripheral_named(trimmed(s@)) is Some ==> r == Ok::<Peripheral, PiSaysError>(
                peripheral_named(trimmed(s@))->Some_0,
            ),
            peripheral_named(trimmed(s@)) is None ==> r == Err::<Peripheral, PiSaysError>(
                PiSaysError::UnknownPeripheral,
            ),
    {
        match peripheral_of_name(trim_white_space(s)) {
            Some(p) => Ok(p),
            None => Err(PiSaysError::UnknownPeripheral),
        }
    }

    /// The name of the peripheral.
    pub fn name(&self) -> (r: &'static str)
        ensures
            r@ == name_of(*self),
    {
        proof {
            reveal_strlit("Serial");
        }
        match self {
            Peripheral::Serial => "Serial",
        }
    }
}

impl std::str::FromStr for Peripheral {
    type Err = PiSaysError;

    fn from_str(s: &str) -> (r: Result<Peripheral, PiSaysError>)
        ensures
            peripheral_named(trimmed(s@)) is Some ==> r == Ok::<Peripheral, PiSaysError>(
                peripheral_named(trimmed(s@))->Some_0,
            ),
            peripheral_named(trimmed(s@)) is None ==> r == Err::<Peripheral, PiSaysError>(
                PiSaysError::UnknownPeripheral,
            ),
    {
        Peripheral::parse(s)
    }
}

/// A peripheral's name reads back as that peripheral.
pub proof fn name_reads_back(p: Peripheral)
    ensures
        peripheral_named(trimmed(name_of(p))) == Some(p),
{
    let n = name_of(p);
    assert(!is_white_space(n[0]));
    assert(trim_start(n) == n);
    assert(!is_white_space(n.last()));
    assert(trim_end(n) == n);
    assert(eq_ignoring_ascii_case(n, serial_name()));
}

/// The configuration a link gets unless told otherwise: 115200 baud, echo
/// off, receiver off.
pub open spec fn default_config() -> LinkConfig {
    LinkConfig { baud: B115200, echo_enabled: false, receive_enabled: false }
}

/// The serial run: an opener for a link to the first serial port under the
/// default configuration, and the greeting to write once it is ready.
pub fn run_serial() -> (r: (Opener, &'static str))
    ensures
        r.0.path_spec() == "/dev/ttyS0"@,
        r.0.phase_spec() == OpenPhase::Start,
        r.0.config_spec() == default_config(),
        r.1@ == "Hello, world!\n"@,
{
    let config = LinkConfig { baud: B115200, echo_enabled: false, receive_enabled: false };
    (Serial::new("/dev/ttyS0".to_owned(), config), "Hello, world!\n")
}

} // verus!
