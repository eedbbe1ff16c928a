//! Decisions of the shim loaded into each instrumented child: the guard count it
//! reports, the coverage bytes it copies out at exit, and what it logs.
use vstd::prelude::*;

use vstd::utf8::{decode_utf8, valid_utf8};

use crate::capture::utf8_text;
use crate::text::{decimal, push_decimal};

verus! {

/// The byte stored for a guard counter: its value modulo 256, so 257 becomes 1.
pub open spec fn guard_byte(v: i32) -> u8 {
    ((v as int) % 256) as u8
}

/// The region's bytes for a whole guard array.
pub open spec fn guard_bytes(guards: Seq<i32>) -> Seq<u8> {
    guards.map_values(|v: i32| guard_byte(v))
}

/// The byte of one guard counter, keeping only its low eight bits.
pub fn truncate_guard(v: i32) -> (r: u8)
    ensures
        r == guard_byte(v),
{
    let low = v & 255;
    assert(low == (v as int) % 256 && 0 <= low < 256) by (bit_vector)
        requires
            low == v & 255,
    ;
    low as u8
}

/// Why the bridge left the region as it was.
#[derive(Clone, Copy, Debug, PartialEq, Eq, Structural)]
pub enum BridgeError {
    /// The region's length and the guard count differ.
    SizeMismatch { region_len: usize, guard_count: usize },
}

/// Checks, before any guard is read, that the region has one byte per guard.
pub fn check_region_fits(region_len: usize, guard_count: usize) -> (r: Result<(), BridgeError>)
    ensures
        region_len == guard_count ==> r is Ok,
        region_len != guard_count ==> r == Err::<(), BridgeError>(
            BridgeError::SizeMismatch { region_len, guard_count },
        ),
{
    if region_len != guard_count {
        Err(BridgeError::SizeMismatch { region_len, guard_count })
    } else {
        Ok(())
    }
}

/// The bytes to copy into a region of `region_len` bytes: one per guard, truncated;
/// an error when the lengths differ, in which case nothing is copied.
pub fn guard_region_bytes(region_len: usize, guards: &[i32]) -> (r: Result<Vec<u8>, BridgeError>)
    ensures
        region_len == guards@.len() ==> (r matches Ok(b) && b@ == guard_bytes(guards@)),
        region_len != guards@.len() ==> r == Err::<Vec<u8>, BridgeError>(
            BridgeError::SizeMismatch { region_len, guard_count: guards@.len() as usize },
        ),
{
    if let Err(e) = check_region_fits(region_len, guards.len()) {
        return Err(e);
    }
    let mut out: Vec<u8> = Vec::new();
    let mut i: usize = 0;
    while i < guards.len()
        invariant
            i <= guards@.len(),
            out@ == guard_bytes(guards@.subrange(0, i as int)),
        decreases guards@.len() - i,
    {
        let b = truncate_guard(guards[i]);
        out.push(b);
        i = i + 1;
        assert(out@ =~= guard_bytes(guards@.subrange(0, i as int)));
    }
    assert(guards@.subrange(0, i as int) =~= guards@);
    Ok(out)
}

/// The log message of a size mismatch.
pub open spec fn mismatch_text(region_len: nat, guard_count: nat) -> Seq<char> {
    "Memory sizes don't match. shmem: "@ + decimal(region_len) + ", guards: "@ + decimal(
        guard_count,
    )
}

/// The log message of a bridge error.
pub fn bridge_error_message(e: BridgeError) -> (r: String)
    ensures
        e matches BridgeError::SizeMismatch { region_len, guard_count } ==> r@ == mismatch_text(
            region_len as nat,
            guard_count as nat,
        ),
{
    match e {
        BridgeError::SizeMismatch { region_len, guard_count } => {
            let mut s = String::from_str("Memory sizes don't match. shmem: ");
            push_decimal(&mut s, region_len as u64);
            s.append(", guards: ");
            push_decimal(&mut s, guard_count as u64);
            s
        },
    }
}

/// One line of the bridge's failure log: the time in milliseconds since the Unix epoch,
/// a colon, the message.
pub open spec fn log_line_text(millis: nat, message: Seq<char>) -> Seq<char> {
    decimal(millis) + ": "@ + message + "\n"@
}

/// Formats one line of the bridge's failure log.
pub fn log_line(millis: u64, message: &str) -> (r: String)
    ensures
        r@ == log_line_text(millis as nat, message@),
{
    let mut s = String::new();
    push_decimal(&mut s, millis);
    s.append(": ");
    s.append(message);
    s.append("\n");
    s
}

/// A value that is written once, when the process starts, and read once, when it ends.
pub struct HookCell<T> {
    value: Option<T>,
    written: bool,
}

impl<T> HookCell<T> {
    /// Whether a value was ever written.
    pub closed spec fn spec_written(&self) -> bool {
        self.written
    }

    /// The value held, until it is taken.
    pub closed spec fn spec_value(&self) -> Option<T> {
        self.value
    }

    /// A held value was written.
    pub closed spec fn wf(&self) -> bool {
        self.value is Some ==> self.written
    }

    /// An empty cell.
    pub fn new() -> (r: Self)
        ensures
            r.wf(),
            !r.spec_written(),
            r.spec_value() is None,
    {
        HookCell { value: None, written: false }
    }

    /// Writes the value, unless one was ever written: then the value is handed back.
    pub fn set(&mut self, v: T) -> (r: Result<(), T>)
        requires
            old(self).wf(),
        ensures
            final(self).wf(),
            final(self).spec_written(),
            !old(self).spec_written() ==> r is Ok && final(self).spec_value() == Some(v),
            old(self).spec_written() ==> r == Err::<(), T>(v) && final(self).spec_value()
                == old(self).spec_value(),
    {
        if self.written {
            return Err(v);
        }
        self.value = Some(v);
        self.written = true;
        Ok(())
    }

    /// Takes the value; later reads find none.
    pub fn take(&mut self) -> (r: Option<T>)
        requires
            old(self).wf(),
        ensures
            final(self).wf(),
            r == old(self).spec_value(),
            final(self).spec_value() is None,
            final(self).spec_written() == old(self).spec_written(),
    {
        let r = self.value.take();
        r
    }
}

/// Where a symbol is looked up.
#[derive(Clone, Copy, Debug, PartialEq, Eq, Structural)]
pub enum SymbolScope {
    /// The whole process, from the program on.
    Global,
    /// The libraries loaded after this one: the definition this one interposes on.
    Next,
}

/// The scope of a lookup: global when asked, else the next definition.
pub fn symbol_scope(search_global: bool) -> (r: SymbolScope)
    ensures
        search_global ==> r == SymbolScope::Global,
        !search_global ==> r == SymbolScope::Next,
{
    if search_global {
        SymbolScope::Global
    } else {
        SymbolScope::Next
    }
}

/// Why a symbol cannot be used as a typed handle.
#[derive(Clone, Copy, Debug, PartialEq, Eq, Structural)]
pub enum SymbolError {
    /// The handle type is not the size of an address.
    SizeMismatch,
    /// No definition was found.
    NotFound,
}

/// Checks a lookup's result before it becomes a typed handle: the handle must be the
/// size of an address, and a definition must have been found.
pub fn check_symbol(handle_size: usize, address_size: usize, found: bool) -> (r: Result<
    (),
    SymbolError,
>)
    ensures
        handle_size != address_size ==> r == Err::<(), SymbolError>(SymbolError::SizeMismatch),
        handle_size == address_size && !found ==> r == Err::<(), SymbolError>(
            SymbolError::NotFound,
        ),
        handle_size == address_size && found ==> r is Ok,
{
    if handle_size != address_size {
        Err(SymbolError::SizeMismatch)
    } else if !found {
        Err(SymbolError::NotFound)
    } else {
        Ok(())
    }
}

/// True when every byte is a decimal digit.
pub open spec fn all_digits(d: Seq<u8>) -> bool {
    forall|i: int| 0 <= i < d.len() ==> 48 <= #[trigger] d[i] <= 57
}

/// The value of a sequence of decimal digits.
pub open spec fn digits_value(d: Seq<u8>) -> nat
    decreases d.len(),
{
    if d.len() == 0 {
        0
    } else {
        digits_value(d.drop_last()) * 10 + (d.last() - 48) as nat
    }
}

/// True for the characters of Unicode's White_Space property, which `str::trim` removes.
pub open spec fn is_white_space(c: char) -> bool {
    ||| ('\t' <= c && c <= '\r')
    ||| c == ' '
    ||| c == '\u{85}'
    ||| c == '\u{a0}'
    ||| c == '\u{1680}'
    ||| ('\u{2000}' <= c && c <= '\u{200a}')
    ||| c == '\u{2028}'
    ||| c == '\u{2029}'
    ||| c == '\u{202f}'
    ||| c == '\u{205f}'
    ||| c == '\u{3000}'
}

/// The text without the white space before it.
pub open spec fn trim_start_chars(s: Seq<char>) -> Seq<char>
    decreases s.len(),
{
    if s.len() > 0 && is_white_space(s[0]) {
        trim_start_chars(s.drop_first())
    } else {
        s
    }
}

/// The text without the white space after it.
pub open spec fn trim_end_chars(s: Seq<char>) -> Seq<char>
    decreases s.len(),
{
    if s.len() > 0 && is_white_space(s.last()) {
        trim_end_chars(s.drop_last())
    } else {
        s
    }
}

/// The text without white space at either end.
pub open spec fn trimmed_text(s: Seq<char>) -> Seq<char> {
    trim_end_chars(trim_start_chars(s))
}

/// True when every character is an ASCII decimal digit.
pub open spec fn all_digit_chars(d: Seq<char>) -> bool {
    forall|i: int| 0 <= i < d.len() ==> '0' <= #[trigger] d[i] && d[i] <= '9'
}

/// The value of a sequence of decimal digit characters.
pub open spec fn digit_chars_value(d: Seq<char>) -> nat
    decreases d.len(),
{
    if d.len() == 0 {
        0
    } else {
        digit_chars_value(d.drop_last()) * 10 + ((d.last() as u32) as int - 48) as nat
    }
}

/// The number that a text spells as `str::parse::<usize>` reads it: an optional plus
/// sign, then at least one digit and nothing else, of a value that fits a `usize`.
pub open spec fn usize_of_text(s: Seq<char>) -> Option<nat> {
    let d = if s.len() > 0 && s[0] == '+' {
        s.drop_first()
    } else {
        s
    };
    if d.len() > 0 && all_digit_chars(d) && digit_chars_value(d) <= usize::MAX {
        Some(digit_chars_value(d))
    } else {
        None
    }
}

/// The number that a guard counter printed: valid UTF-8, white space around it.
pub open spec fn printed_number(b: Seq<u8>) -> Option<nat> {
    if valid_utf8(b) {
        usize_of_text(trimmed_text(decode_utf8(b)))
    } else {
        None
    }
}

/// Relies on `str::trim`: the text without leading and trailing characters of the
/// White_Space property.
#[verifier::external_body]
fn trim_text<'a>(s: &'a str) -> (r: &'a str)
    ensures
        r@ == trimmed_text(s@),
{
    s.trim()
}

/// Relies on `str::parse::<usize>`: it accepts an optional `+` followed by decimal
/// digits only, of a value that fits, and nothing else.
#[verifier::external_body]
fn parse_usize(s: &str) -> (r: Option<usize>)
    ensures
        r matches Some(n) ==> usize_of_text(s@) == Some(n as nat),
        r is None ==> usize_of_text(s@) is None,
{
    s.parse::<usize>().ok()
}


/// Why a guard count could not be obtained.
#[derive(Clone, Copy, Debug, PartialEq, Eq, Structural)]
pub enum GuardCountError {
    /// The output is no decimal number.
    NotANumber,
    /// The binary has no guards: it cannot be a target.
    Zero,
}

proof fn lemma_digits_value_step(d: Seq<u8>, i: int)
    requires
        0 <= i < d.len(),
    ensures
        digits_value(d.subrange(0, i + 1)) == digits_value(d.subrange(0, i)) * 10 + (d[i]
            - 48) as nat,
{
    assert(d.subrange(0, i + 1).drop_last() =~= d.subrange(0, i));
}

/// Reads the guard count that a target printed. A count of zero is refused: no region
/// can be sized by it.
pub fn parse_guard_count(output: &[u8]) -> (r: Result<usize, GuardCountError>)
    ensures
        printed_number(output@) matches Some(n) ==> (n > 0 ==> r == Ok::<usize, GuardCountError>(
            n as usize,
        )),
        printed_number(output@) == Some(0nat) ==> r == Err::<usize, GuardCountError>(
            GuardCountError::Zero,
        ),
        printed_number(output@) is None ==> r == Err::<usize, GuardCountError>(
            GuardCountError::NotANumber,
        ),
        r matches Ok(n) ==> n > 0,
{
    let text = match utf8_text(output) {
        None => return Err(GuardCountError::NotANumber),
        Some(t) => t,
    };
    match parse_usize(trim_text(text.as_str())) {
        None => Err(GuardCountError::NotANumber),
        Some(n) => if n == 0 {
            Err(GuardCountError::Zero)
        } else {
            Ok(n)
        },
    }
}


/// The value of the decimal digits between `lo` and `hi`, when all are digits and
/// the value is at most `limit`.
pub fn digits_in(b: &[u8], lo: usize, hi: usize, limit: usize) -> (r: Option<usize>)
    requires
        lo <= hi <= b@.len(),
    ensures
        r == if all_digits(b@.subrange(lo as int, hi as int)) && digits_value(
            b@.subrange(lo as int, hi as int),
        ) <= limit {
            Some(digits_value(b@.subrange(lo as int, hi as int)) as usize)
        } else {
            None::<usize>
        },
{
    let ghost d = b@.subrange(lo as int, hi as int);
    let mut i: usize = lo;
    let mut value: usize = 0;
    while i < hi
        invariant
            lo <= i <= hi <= b@.len(),
            d == b@.subrange(lo as int, hi as int),
            forall|k: int| lo <= k < i ==> 48 <= #[trigger] b@[k] <= 57,
            value as nat == digits_value(d.subrange(0, i - lo)),
            value <= limit,
        decreases hi - i,
    {
        let c = b[i];
        if c < 48 || c > 57 {
            assert(d[i - lo] == c);
            assert(!all_digits(d));
            return None;
        }
        proof {
            lemma_digits_value_step(d, i - lo);
            assert(d[i - lo] == c);
        }
        let digit = (c - 48) as usize;
        if value > limit / 10 || (value == limit / 10 && digit > limit % 10) {
            proof {
                let k = (i - lo) as int;
                let m = limit as int;
                vstd::arithmetic::div_mod::lemma_fundamental_div_mod(m, 10);
                assert(value * 10 + digit > m) by (nonlinear_arith)
                    requires
                        value > m / 10 || (value == m / 10 && digit > m % 10),
                        m == (m / 10) * 10 + m % 10,
                        m % 10 >= 0,
                        0 <= digit,
                ;
                assert(digits_value(d.subrange(0, k + 1)) > limit);
                lemma_digits_value_grows(d, k + 1, limit as nat);
            }
            return None;
        }
        proof {
            let m = limit as int;
            vstd::arithmetic::div_mod::lemma_fundamental_div_mod(m, 10);
            assert(value * 10 + digit <= m) by (nonlinear_arith)
                requires
                    value < m / 10 || (value == m / 10 && digit <= m % 10),
                    m == (m / 10) * 10 + m % 10,
                    0 <= digit <= 9,
                    0 <= value,
            ;
        }
        value = value * 10 + digit;
        i = i + 1;
    }
    proof {
        assert(d.subrange(0, i - lo) =~= d);
        assert(all_digits(d)) by {
            assert forall|k: int| 0 <= k < d.len() implies 48 <= #[trigger] d[k] <= 57 by {
                assert(d[k] == b@[lo + k]);
            }
        }
    }
    Some(value)
}

proof fn lemma_digits_value_grows(d: Seq<u8>, k: int, limit: nat)
    requires
        0 <= k <= d.len(),
        digits_value(d.subrange(0, k)) > limit,
    ensures
        all_digits(d) ==> digits_value(d) > limit,
    decreases d.len() - k,
{
    if k < d.len() {
        lemma_digits_value_step(d, k);
        if all_digits(d) {
            assert(48 <= d[k] <= 57);
            lemma_digits_value_grows(d, k + 1, limit);
        }
    } else {
        assert(d.subrange(0, k) =~= d);
    }
}

} // verus!
