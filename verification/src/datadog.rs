//! The file/stdout sink's record format: one JSON object per log record,
//! with reserved keys `message`, `timestamp`, `level`, `dd.trace_id` and
//! `dd.span_id`, and every user attribute under `fields.<name>`.
//!
//! The encoding itself is verified here against a specification of the JSON
//! text; performing the write is left to the embedding.

use vstd::prelude::*;
use vstd::string::StrSliceExecFns;
use vstd::string::StringExecFns;
use vstd::utf8::valid_utf8;
use vstd::utf8::decode_utf8;
use crate::builder::ExportError;

verus! {

// ---------------------------------------------------------------------------
// Staging buffer
// ---------------------------------------------------------------------------

/// Capacity of a [`Buffer`], in bytes.
pub const BUFFER_CAPACITY: usize = 1024;

/// A fixed-capacity byte buffer for staging small texts without allocating;
/// writes past the capacity are truncated.
pub struct Buffer {
    inner: Vec<u8>,
    len: usize,
}

impl View for Buffer {
    type V = Seq<u8>;

    /// The bytes written so far.
    closed spec fn view(&self) -> Seq<u8> {
        self.inner@.take(self.len as int)
    }
}

impl Buffer {
    /// The backing storage is at capacity and the fill level within it.
    pub closed spec fn wf(self) -> bool {
        self.inner@.len() == BUFFER_CAPACITY && self.len <= BUFFER_CAPACITY
    }

    /// Creates an empty buffer.
    pub fn new() -> (r: Self)
        ensures
            r.wf(),
            r@ == Seq::<u8>::empty(),
    {
        let r = Buffer { inner: vec![0u8; BUFFER_CAPACITY], len: 0 };
        proof {
            assert(r@ =~= Seq::<u8>::empty());
        }
        r
    }

    /// Stages content through `stage`, which takes the buffer and gives it
    /// back along with whether to keep what it wrote: when kept, the staged
    /// content is handed out as text; else the buffer is cleared and nothing
    /// is returned.
    pub fn as_str_with<F: FnOnce(Buffer) -> (Buffer, bool)>(&mut self, stage: F) -> (r: Option<
        &str,
    >)
        requires
            old(self).wf(),
            call_requires(stage, (*old(self),)),
            forall|out: (Buffer, bool)| call_ensures(stage, (*old(self),), out) ==> out.0.wf(),
        ensures
            final(self).wf(),
            exists|out: (Buffer, bool)|
                #![trigger staging_outcome(out, *final(self), r)]
                call_ensures(stage, (*old(self),), out) && staging_outcome(out, *final(self), r),
    {
        let mut taken = Buffer::new();
        core::mem::swap(&mut taken, self);
        let (staged, accepted) = stage(taken);
        let ghost outcome = (staged, accepted);
        *self = staged;
        let r = if accepted {
            self.as_str()
        } else {
            self.clear();
            None
        };
        proof {
            assert(call_ensures(stage, (*old(self),), outcome));
            assert(staging_outcome(outcome, *self, r));
        }
        r
    }

    /// Empties the buffer.
    pub fn clear(&mut self)
        requires
            old(self).wf(),
        ensures
            final(self).wf(),
            final(self)@ == Seq::<u8>::empty(),
    {
        self.len = 0;
        proof {
            assert(self@ =~= Seq::<u8>::empty());
        }
    }

    /// The buffer's content as text, when it is valid UTF-8.
    pub fn as_str(&self) -> (r: Option<&str>)
        requires
            self.wf(),
        ensures
            r is Some <==> valid_utf8(self@),
            r matches Some(s) ==> s@ == decode_utf8(self@),
    {
        let filled = vstd::slice::slice_subrange(self.inner.as_slice(), 0, self.len);
        bytes_to_str(filled)
    }

    /// Appends as much of `buf` as fits, returning how many bytes were taken.
    pub fn push_bytes(&mut self, buf: &[u8]) -> (written: usize)
        requires
            old(self).wf(),
        ensures
            final(self).wf(),
            written == if buf@.len() <= BUFFER_CAPACITY - old(self)@.len() {
                buf@.len() as int
            } else {
                BUFFER_CAPACITY - old(self)@.len()
            },
            final(self)@ == old(self)@ + buf@.take(written as int),
    {
        let room = BUFFER_CAPACITY - self.len;
        let written = if buf.len() <= room {
            buf.len()
        } else {
            room
        };
        let mut i: usize = 0;
        while i < written
            invariant
                i <= written,
                written <= buf@.len(),
                self.len == old(self).len,
                self.len + written <= BUFFER_CAPACITY,
                self.inner@.len() == BUFFER_CAPACITY,
                self.inner@ == old(self).inner@.map(
                    |j: int, b: u8|
                        if old(self).len <= j < old(self).len + i {
                            buf@[j - old(self).len]
                        } else {
                            b
                        },
                ),
            decreases written - i,
        {
            let b = *vstd::slice::slice_index_get(buf, i);
            self.inner[self.len + i] = b;
            proof {
                assert(self.inner@ =~= old(self).inner@.map(
                    |j: int, b: u8|
                        if old(self).len <= j < old(self).len + i + 1 {
                            buf@[j - old(self).len]
                        } else {
                            b
                        },
                ));
            }
            i = i + 1;
        }
        self.len = self.len + written;
        proof {
            assert(self@ =~= old(self)@ + buf@.take(written as int));
        }
        written
    }
}

/// What one staging round leaves behind: on acceptance the buffer `now` is
/// the staged one and `r` is its decoded content exactly when that content is
/// valid UTF-8; on rejection the buffer is cleared and nothing is handed out.
pub open spec fn staging_outcome(out: (Buffer, bool), now: Buffer, r: Option<&str>) -> bool {
    &&& out.1 ==> now == out.0 && (r is Some <==> valid_utf8(out.0@)) && (r matches Some(s) ==> s@
        == decode_utf8(out.0@))
    &&& !out.1 ==> now@ == Seq::<u8>::empty() && r is None
}

/// Relies on core::str::from_utf8: accepts exactly the valid UTF-8 byte
/// sequences, decoding them.
#[verifier::external_body]
fn bytes_to_str(bytes: &[u8]) -> (r: Option<&str>)
    ensures
        r is Some <==> valid_utf8(bytes@),
        r matches Some(s) ==> s@ == decode_utf8(bytes@),
{
    core::str::from_utf8(bytes).ok()
}

// ---------------------------------------------------------------------------
// Decimal rendering
// ---------------------------------------------------------------------------

/// The decimal digit character for `n` in `[0, 10)`.
pub open spec fn dec_digit(n: int) -> char {
    if n == 0 {
        '0'
    } else if n == 1 {
        '1'
    } else if n == 2 {
        '2'
    } else if n == 3 {
        '3'
    } else if n == 4 {
        '4'
    } else if n == 5 {
        '5'
    } else if n == 6 {
        '6'
    } else if n == 7 {
        '7'
    } else if n == 8 {
        '8'
    } else {
        '9'
    }
}

/// The decimal digits of `n`, most significant first.
pub open spec fn dec_nat(n: nat) -> Seq<char>
    decreases n,
{
    if n < 10 {
        seq![dec_digit(n as int)]
    } else {
        dec_nat(n / 10) + seq![dec_digit((n % 10) as int)]
    }
}

/// The decimal rendering of `n`, with a leading minus sign when negative.
pub open spec fn dec_int(n: int) -> Seq<char> {
    if n < 0 {
        seq!['-'] + dec_nat((-n) as nat)
    } else {
        dec_nat(n as nat)
    }
}

pub(crate) fn dec_digit_value(n: u8) -> (c: char)
    requires
        n < 10,
    ensures
        c == dec_digit(n as int),
{
    match n {
        0 => '0',
        1 => '1',
        2 => '2',
        3 => '3',
        4 => '4',
        5 => '5',
        6 => '6',
        7 => '7',
        8 => '8',
        _ => '9',
    }
}

pub(crate) fn push_dec_u128(out: &mut Vec<char>, n: u128)
    ensures
        final(out)@ == old(out)@ + dec_nat(n as nat),
    decreases n,
{
    if n < 10 {
        out.push(dec_digit_value(n as u8));
        proof {
            assert(final(out)@ =~= old(out)@ + dec_nat(n as nat));
        }
    } else {
        push_dec_u128(out, n / 10);
        out.push(dec_digit_value((n % 10) as u8));
        proof {
            assert(final(out)@ =~= old(out)@ + dec_nat(n as nat));
        }
    }
}

fn push_dec_i64(out: &mut Vec<char>, n: i64)
    ensures
        final(out)@ == old(out)@ + dec_int(n as int),
{
    if n < 0 {
        out.push('-');
        let magnitude: u128 = (-(n as i128)) as u128;
        push_dec_u128(out, magnitude);
        proof {
            assert(final(out)@ =~= old(out)@ + dec_int(n as int));
        }
    } else {
        push_dec_u128(out, n as u128);
    }
}

// ---------------------------------------------------------------------------
// String escaping
// ---------------------------------------------------------------------------

/// The hexadecimal digit character for `n` in `[0, 16)`.
pub open spec fn hex_digit(n: int) -> char {
    if n < 10 {
        dec_digit(n)
    } else if n == 10 {
        'a'
    } else if n == 11 {
        'b'
    } else if n == 12 {
        'c'
    } else if n == 13 {
        'd'
    } else if n == 14 {
        'e'
    } else {
        'f'
    }
}

/// How one character appears inside a JSON string: quotes and backslashes are
/// escaped, control characters become `\u00XX`, everything else stands as is.
pub open spec fn escape_char(c: char) -> Seq<char> {
    if c == '"' {
        seq!['\\', '"']
    } else if c == '\\' {
        seq!['\\', '\\']
    } else if (c as u32) < 0x20 {
        seq!['\\', 'u', '0', '0', hex_digit((c as u32 / 16) as int), hex_digit(
            (c as u32 % 16) as int,
        )]
    } else {
        seq![c]
    }
}

/// The characters of `s` from position `i` on, each escaped.
pub open spec fn escaped_from(s: Seq<char>, i: int) -> Seq<char>
    decreases s.len() - i,
{
    if 0 <= i < s.len() {
        escape_char(s[i]) + escaped_from(s, i + 1)
    } else {
        Seq::empty()
    }
}

/// `s` as the body of a JSON string: every character escaped.
pub open spec fn escaped(s: Seq<char>) -> Seq<char> {
    escaped_from(s, 0)
}

/// `s` as a JSON string: quoted and escaped.
pub open spec fn json_string(s: Seq<char>) -> Seq<char> {
    seq!['"'] + escaped(s) + seq!['"']
}

fn hex_digit_value(n: u8) -> (c: char)
    requires
        n < 16,
    ensures
        c == hex_digit(n as int),
{
    if n < 10 {
        dec_digit_value(n)
    } else {
        match n {
            10 => 'a',
            11 => 'b',
            12 => 'c',
            13 => 'd',
            14 => 'e',
            _ => 'f',
        }
    }
}

fn push_escaped_char(out: &mut Vec<char>, c: char)
    ensures
        final(out)@ == old(out)@ + escape_char(c),
{
    if c == '"' {
        out.push('\\');
        out.push('"');
    } else if c == '\\' {
        out.push('\\');
        out.push('\\');
    } else if (c as u32) < 0x20 {
        let code = c as u32;
        out.push('\\');
        out.push('u');
        out.push('0');
        out.push('0');
        out.push(hex_digit_value((code / 16) as u8));
        out.push(hex_digit_value((code % 16) as u8));
    } else {
        out.push(c);
    }
    proof {
        assert(final(out)@ =~= old(out)@ + escape_char(c));
    }
}

fn push_escaped(out: &mut Vec<char>, s: &str)
    ensures
        final(out)@ == old(out)@ + escaped(s@),
{
    let n = s.unicode_len();
    let mut i: usize = 0;
    while i < n
        invariant
            i <= n,
            n == s@.len(),
            out@ + escaped_from(s@, i as int) == old(out)@ + escaped(s@),
        decreases n - i,
    {
        let c = s.get_char(i);
        let ghost before = out@;
        push_escaped_char(out, c);
        proof {
            assert(out@ + escaped_from(s@, i + 1 as int) =~= before + escaped_from(s@, i as int));
        }
        i = i + 1;
    }
    proof {
        assert(out@ =~= old(out)@ + escaped(s@));
    }
}

fn push_json_string(out: &mut Vec<char>, s: &str)
    ensures
        final(out)@ == old(out)@ + json_string(s@),
{
    out.push('"');
    push_escaped(out, s);
    out.push('"');
    proof {
        assert(final(out)@ =~= old(out)@ + json_string(s@));
    }
}

// ---------------------------------------------------------------------------
// JSON number grammar, for pre-rendered floating-point texts
// ---------------------------------------------------------------------------

/// A decimal digit character.
pub open spec fn is_digit(c: char) -> bool {
    ('0' as u32) <= (c as u32) && (c as u32) <= ('9' as u32)
}

/// The first position at or after `i` that does not hold a digit.
pub open spec fn digits_end(s: Seq<char>, i: int) -> int
    decreases s.len() - i,
{
    if 0 <= i < s.len() && is_digit(s[i]) {
        digits_end(s, i + 1)
    } else {
        i
    }
}

/// Whether `s` is a JSON number: an optional minus sign, an integer part
/// without leading zeros, an optional fraction and an optional exponent.
pub open spec fn is_json_number(s: Seq<char>) -> bool {
    let start = if s.len() > 0 && s[0] == '-' {
        1int
    } else {
        0int
    };
    if start >= s.len() || !is_digit(s[start]) {
        false
    } else {
        let after_int = if s[start] == '0' {
            start + 1
        } else {
            digits_end(s, start)
        };
        let after_frac = if after_int < s.len() && s[after_int] == '.' {
            let end = digits_end(s, after_int + 1);
            if end > after_int + 1 {
                end
            } else {
                -1int
            }
        } else {
            after_int
        };
        if after_frac < 0 {
            false
        } else {
            let after_exp = if after_frac < s.len() && (s[after_frac] == 'e' || s[after_frac]
                == 'E') {
                let digits_start = if after_frac + 1 < s.len() && (s[after_frac + 1] == '+' || s[
                    after_frac + 1
                ] == '-') {
                    after_frac + 2
                } else {
                    after_frac + 1
                };
                let end = digits_end(s, digits_start);
                if end > digits_start {
                    end
                } else {
                    -1int
                }
            } else {
                after_frac
            };
            after_exp == s.len()
        }
    }
}

fn is_digit_value(c: char) -> (r: bool)
    ensures
        r == is_digit(c),
{
    ('0' as u32) <= (c as u32) && (c as u32) <= ('9' as u32)
}

fn digits_end_value(s: &str, i: usize) -> (r: usize)
    requires
        i <= s@.len(),
    ensures
        r == digits_end(s@, i as int),
        i <= r <= s@.len(),
    decreases s@.len() - i,
{
    if i < s.unicode_len() && is_digit_value(s.get_char(i)) {
        digits_end_value(s, i + 1)
    } else {
        i
    }
}

/// Whether `s` is a JSON number token; see [`is_json_number`].
pub fn check_json_number(s: &str) -> (r: bool)
    ensures
        r == is_json_number(s@),
{
    let n = s.unicode_len();
    let start: usize = if n > 0 && s.get_char(0) == '-' {
        1
    } else {
        0
    };
    if start >= n || !is_digit_value(s.get_char(start)) {
        return false;
    }
    let after_int = if s.get_char(start) == '0' {
        start + 1
    } else {
        digits_end_value(s, start)
    };
    let after_frac_opt: Option<usize> = if after_int < n && s.get_char(after_int) == '.' {
        let end = digits_end_value(s, after_int + 1);
        if end > after_int + 1 {
            Some(end)
        } else {
            None
        }
    } else {
        Some(after_int)
    };
    let after_frac = match after_frac_opt {
        Some(p) => p,
        None => {
            return false;
        },
    };
    let after_exp_opt: Option<usize> = if after_frac < n && (s.get_char(after_frac) == 'e'
        || s.get_char(after_frac) == 'E') {
        let digits_start = if after_frac + 1 < n && (s.get_char(after_frac + 1) == '+'
            || s.get_char(after_frac + 1) == '-') {
            after_frac + 2
        } else {
            after_frac + 1
        };
        let end = digits_end_value(s, digits_start);
        if end > digits_start {
            Some(end)
        } else {
            None
        }
    } else {
        Some(after_frac)
    };
    match after_exp_opt {
        Some(p) => p == n,
        None => false,
    }
}

// ---------------------------------------------------------------------------
// Attribute values and their JSON encoding
// ---------------------------------------------------------------------------

/// An attribute value as the sink represents it.
#[derive(Debug)]
pub enum AttrValue {
    /// A boolean, encoded as a JSON boolean.
    Bool(bool),
    /// An integer, encoded as a JSON number.
    Int(i64),
    /// A floating-point value carried as its pre-rendered decimal text, which
    /// must be a JSON number token; encoded verbatim.
    Double(String),
    /// Text, encoded as a JSON string.
    Text(String),
    /// Raw bytes, encoded as a JSON array of numbers.
    Bytes(Vec<u8>),
    /// A list of values, encoded as a JSON array.
    List(Vec<AttrValue>),
    /// String-keyed nested values, encoded as a JSON object.
    NestedMap(Vec<(String, AttrValue)>),
    /// A shape the sink does not support; encoding it is a hard error.
    Unsupported,
}

/// The sink can represent this value: no [`AttrValue::Unsupported`] anywhere
/// inside it, and every pre-rendered floating-point text a JSON number.
pub open spec fn value_supported(v: AttrValue) -> bool
    decreases v, 0int,
{
    match v {
        AttrValue::Double(s) => is_json_number(s@),
        AttrValue::List(items) => values_supported(items@, 0),
        AttrValue::NestedMap(entries) => entries_supported(entries@, 0),
        AttrValue::Unsupported => false,
        _ => true,
    }
}

/// Every item of `items` from position `i` on is supported.
pub open spec fn values_supported(items: Seq<AttrValue>, i: int) -> bool
    decreases items, items.len() - i,
{
    if 0 <= i < items.len() {
        value_supported(items[i]) && values_supported(items, i + 1)
    } else {
        true
    }
}

/// Every value of `entries` from position `i` on is supported.
pub open spec fn entries_supported(entries: Seq<(String, AttrValue)>, i: int) -> bool
    decreases entries, entries.len() - i,
{
    if 0 <= i < entries.len() {
        value_supported(entries[i].1) && entries_supported(entries, i + 1)
    } else {
        true
    }
}

/// The JSON text of one supported value.
pub open spec fn json_of_value(v: AttrValue) -> Seq<char>
    decreases v, 0int,
{
    match v {
        AttrValue::Bool(b) => if b {
            seq!['t', 'r', 'u', 'e']
        } else {
            seq!['f', 'a', 'l', 's', 'e']
        },
        AttrValue::Int(n) => dec_int(n as int),
        AttrValue::Double(s) => s@,
        AttrValue::Text(s) => json_string(s@),
        AttrValue::Bytes(bytes) => seq!['['] + json_of_bytes(bytes@, 0) + seq![']'],
        AttrValue::List(items) => seq!['['] + json_of_items(items@, 0) + seq![']'],
        AttrValue::NestedMap(entries) => seq!['{'] + json_of_entries(entries@, 0) + seq!['}'],
        AttrValue::Unsupported => Seq::empty(),
    }
}

/// The comma-separated JSON texts of `items` from position `i` on.
pub open spec fn json_of_items(items: Seq<AttrValue>, i: int) -> Seq<char>
    decreases items, items.len() - i,
{
    if 0 <= i < items.len() {
        let lead = if i == 0 {
            Seq::<char>::empty()
        } else {
            seq![',']
        };
        lead + json_of_value(items[i]) + json_of_items(items, i + 1)
    } else {
        Seq::empty()
    }
}

/// The comma-separated JSON members of `entries` from position `i` on, each a
/// JSON string key, a colon and the value's JSON text.
pub open spec fn json_of_entries(entries: Seq<(String, AttrValue)>, i: int) -> Seq<char>
    decreases entries, entries.len() - i,
{
    if 0 <= i < entries.len() {
        let lead = if i == 0 {
            Seq::<char>::empty()
        } else {
            seq![',']
        };
        lead + json_string(entries[i].0@) + seq![':'] + json_of_value(entries[i].1)
            + json_of_entries(entries, i + 1)
    } else {
        Seq::empty()
    }
}

/// The comma-separated decimal texts of `bytes` from position `i` on.
pub open spec fn json_of_bytes(bytes: Seq<u8>, i: int) -> Seq<char>
    decreases bytes.len() - i,
{
    if 0 <= i < bytes.len() {
        let lead = if i == 0 {
            Seq::<char>::empty()
        } else {
            seq![',']
        };
        lead + dec_nat(bytes[i] as nat) + json_of_bytes(bytes, i + 1)
    } else {
        Seq::empty()
    }
}

/// Whether the sink can represent `v`; see [`value_supported`].
#[verifier::loop_isolation(false)]
pub fn check_value_supported(v: &AttrValue) -> (r: bool)
    ensures
        r == value_supported(*v),
    decreases *v, 0int,
{
    match v {
        AttrValue::Double(s) => check_json_number(s.as_str()),
        AttrValue::List(items) => {
            let mut i: usize = 0;
            let n = items.len();
            while i < n
                invariant
                    i <= n,
                    n == items@.len(),
                    values_supported(items@, 0) == values_supported(items@, i as int),
                decreases n - i,
            {
                proof {
                    assert((*v)->List_0 == *items);
                    assert(decreases_to!(*v => (*v)->List_0));
                    assert(decreases_to!(*items => items@));
                    assert(decreases_to!(items@ => items@[i as int]));
                    assert(decreases_to!(*v => items@[i as int]));
                }
                if !check_value_supported(&items[i]) {
                    return false;
                }
                i = i + 1;
            }
            true
        },
        AttrValue::NestedMap(entries) => {
            let mut i: usize = 0;
            let n = entries.len();
            while i < n
                invariant
                    i <= n,
                    n == entries@.len(),
                    entries_supported(entries@, 0) == entries_supported(entries@, i as int),
                decreases n - i,
            {
                proof {
                    assert((*v)->NestedMap_0 == *entries);
                    assert(decreases_to!(*v => (*v)->NestedMap_0));
                    assert(decreases_to!(*entries => entries@));
                    assert(decreases_to!(entries@ => entries@[i as int]));
                    assert(decreases_to!(entries@[i as int] => entries@[i as int].1));
                    assert(decreases_to!(*v => entries@[i as int].1));
                }
                if !check_value_supported(&entries[i].1) {
                    return false;
                }
                i = i + 1;
            }
            true
        },
        AttrValue::Unsupported => false,
        _ => true,
    }
}

#[verifier::loop_isolation(false)]
#[verifier::rlimit(50)]
fn push_value(out: &mut Vec<char>, v: &AttrValue)
    requires
        value_supported(*v),
    ensures
        final(out)@ == old(out)@ + json_of_value(*v),
    decreases *v, 0int,
{
    match v {
        AttrValue::Bool(b) => {
            if *b {
                out.push('t');
                out.push('r');
                out.push('u');
                out.push('e');
            } else {
                out.push('f');
                out.push('a');
                out.push('l');
                out.push('s');
                out.push('e');
            }
            proof {
                assert(final(out)@ =~= old(out)@ + json_of_value(*v));
            }
        },
        AttrValue::Int(n) => {
            push_dec_i64(out, *n);
        },
        AttrValue::Double(s) => {
            push_verbatim(out, s.as_str());
        },
        AttrValue::Text(s) => {
            push_json_string(out, s.as_str());
        },
        AttrValue::Bytes(bytes) => {
            out.push('[');
            let mut i: usize = 0;
            let n = bytes.len();
            while i < n
                invariant
                    i <= n,
                    n == bytes@.len(),
                    out@ + json_of_bytes(bytes@, i as int) == old(out)@ + seq!['[']
                        + json_of_bytes(bytes@, 0),
                decreases n - i,
            {
                let ghost before = out@;
                if i > 0 {
                    out.push(',');
                }
                push_dec_u128(out, bytes[i] as u128);
                proof {
                    assert(out@ + json_of_bytes(bytes@, i + 1 as int) =~= before + json_of_bytes(
                        bytes@,
                        i as int,
                    ));
                }
                i = i + 1;
            }
            out.push(']');
            proof {
                assert(final(out)@ =~= old(out)@ + json_of_value(*v));
            }
        },
        AttrValue::List(items) => {
            out.push('[');
            let mut i: usize = 0;
            let n = items.len();
            while i < n
                invariant
                    i <= n,
                    n == items@.len(),
                    values_supported(items@, i as int),
                    out@ + json_of_items(items@, i as int) == old(out)@ + seq!['[']
                        + json_of_items(items@, 0),
                decreases n - i,
            {
                let ghost before = out@;
                if i > 0 {
                    out.push(',');
                }
                proof {
                    assert((*v)->List_0 == *items);
                    assert(decreases_to!(*v => (*v)->List_0));
                    assert(decreases_to!(*items => items@));
                    assert(decreases_to!(items@ => items@[i as int]));
                    assert(decreases_to!(*v => items@[i as int]));
                }
                push_value(out, &items[i]);
                proof {
                    assert(out@ + json_of_items(items@, i + 1 as int) =~= before + json_of_items(
                        items@,
                        i as int,
                    ));
                }
                i = i + 1;
            }
            out.push(']');
            proof {
                assert(final(out)@ =~= old(out)@ + json_of_value(*v));
            }
        },
        AttrValue::NestedMap(entries) => {
            out.push('{');
            let mut i: usize = 0;
            let n = entries.len();
            while i < n
                invariant
                    i <= n,
                    n == entries@.len(),
                    entries_supported(entries@, i as int),
                    out@ + json_of_entries(entries@, i as int) == old(out)@ + seq!['{']
                        + json_of_entries(entries@, 0),
                decreases n - i,
            {
                let ghost before = out@;
                if i > 0 {
                    out.push(',');
                }
                push_json_string(out, entries[i].0.as_str());
                out.push(':');
                proof {
                    assert((*v)->NestedMap_0 == *entries);
                    assert(decreases_to!(*v => (*v)->NestedMap_0));
                    assert(decreases_to!(*entries => entries@));
                    assert(decreases_to!(entries@ => entries@[i as int]));
                    assert(decreases_to!(entries@[i as int] => entries@[i as int].1));
                    assert(decreases_to!(*v => entries@[i as int].1));
                }
                push_value(out, &entries[i].1);
                proof {
                    assert(out@ + json_of_entries(entries@, i + 1 as int) =~= before
                        + json_of_entries(entries@, i as int));
                }
                i = i + 1;
            }
            out.push('}');
            proof {
                assert(final(out)@ =~= old(out)@ + json_of_value(*v));
            }
        },
        AttrValue::Unsupported => {
            proof {
                assert(false);
            }
        },
    }
}

fn push_verbatim(out: &mut Vec<char>, s: &str)
    ensures
        final(out)@ == old(out)@ + s@,
{
    let n = s.unicode_len();
    let mut i: usize = 0;
    while i < n
        invariant
            i <= n,
            n == s@.len(),
            out@ == old(out)@ + s@.take(i as int),
        decreases n - i,
    {
        out.push(s.get_char(i));
        proof {
            assert(out@ =~= old(out)@ + s@.take(i + 1 as int));
        }
        i = i + 1;
    }
    proof {
        assert(out@ =~= old(out)@ + s@);
    }
}


// ---------------------------------------------------------------------------
// Log records and their line format
// ---------------------------------------------------------------------------

/// Trace correlation attached to a record: the 128-bit trace ID and 64-bit
/// span ID, emitted as big-endian integers.
#[derive(Clone, Copy, PartialEq, Eq, Structural, Debug)]
pub struct TraceContextIds {
    /// The record's trace ID.
    pub trace_id: u128,
    /// The record's span ID.
    pub span_id: u64,
}

/// One log record as the sink represents it.
#[derive(Debug)]
pub struct LogRecord {
    /// The record body, emitted under `message`.
    pub body: Option<AttrValue>,
    /// When the record happened, in nanoseconds since the Unix epoch.
    pub timestamp_nanos: Option<i128>,
    /// When the record was observed, used when `timestamp_nanos` is absent.
    pub observed_timestamp_nanos: Option<i128>,
    /// Severity text, emitted under `level` when set.
    pub severity_text: Option<String>,
    /// Trace correlation, emitted under `dd.trace_id` and `dd.span_id` when
    /// attached.
    pub trace_context: Option<TraceContextIds>,
    /// User attributes, each emitted under `fields.<name>`.
    pub attributes: Vec<(String, AttrValue)>,
}

/// The timestamp the record is stamped with: its own, or the observed one.
pub open spec fn effective_timestamp(r: LogRecord) -> Option<i128> {
    match r.timestamp_nanos {
        Some(t) => Some(t),
        None => r.observed_timestamp_nanos,
    }
}

/// What the timestamp collaborator renders the given instant as: an RFC 3339
/// text, or nothing for an instant out of its calendar range.
pub uninterp spec fn rfc3339_text(nanos: i128) -> Option<Seq<char>>;

/// The user-attribute members from position `i` on: each key prefixed with
/// `fields.`, paired with the value's JSON text.
pub open spec fn attribute_entries_from(attrs: Seq<(String, AttrValue)>, i: int) -> Seq<
    (Seq<char>, Seq<char>),
>
    decreases attrs.len() - i,
{
    if 0 <= i < attrs.len() {
        seq![("fields."@ + attrs[i].0@, json_of_value(attrs[i].1))] + attribute_entries_from(
            attrs,
            i + 1,
        )
    } else {
        Seq::empty()
    }
}

/// The record's members in emission order: `message`, `timestamp` (when the
/// record carries a timestamp the calendar can render), `level`, the trace
/// correlation IDs, then every user attribute. Each member is the raw key
/// paired with the value's rendered JSON text.
pub open spec fn record_entries(r: LogRecord) -> Seq<(Seq<char>, Seq<char>)> {
    (match r.body {
        Some(v) => seq![("message"@, json_of_value(v))],
        None => Seq::empty(),
    }) + (match effective_timestamp(r) {
        Some(t) => match rfc3339_text(t) {
            Some(txt) => seq![("timestamp"@, json_string(txt))],
            None => Seq::empty(),
        },
        None => Seq::empty(),
    }) + (match r.severity_text {
        Some(sev) => seq![("level"@, json_string(sev@))],
        None => Seq::empty(),
    }) + (match r.trace_context {
        Some(c) => seq![
            ("dd.trace_id"@, dec_nat(c.trace_id as nat)),
            ("dd.span_id"@, dec_nat(c.span_id as nat)),
        ],
        None => Seq::empty(),
    }) + attribute_entries_from(r.attributes@, 0)
}

/// The members from position `i` on as JSON object text: each key a JSON
/// string, a colon, the value text, comma-separated.
pub open spec fn joined_entries(entries: Seq<(Seq<char>, Seq<char>)>, i: int) -> Seq<char>
    decreases entries.len() - i,
{
    if 0 <= i < entries.len() {
        let lead = if i == 0 {
            Seq::<char>::empty()
        } else {
            seq![',']
        };
        lead + json_string(entries[i].0) + seq![':'] + entries[i].1 + joined_entries(
            entries,
            i + 1,
        )
    } else {
        Seq::empty()
    }
}

/// The record's whole JSON object text.
pub open spec fn json_of_record(r: LogRecord) -> Seq<char> {
    seq!['{'] + joined_entries(record_entries(r), 0) + seq!['}']
}

/// The sink can represent the record: its body and every attribute value.
pub open spec fn record_supported(r: LogRecord) -> bool {
    (match r.body {
        Some(v) => value_supported(v),
        None => true,
    }) && entries_supported(r.attributes@, 0)
}

/// The key/value texts of collected members, each pair by its views.
pub open spec fn entry_views(entries: Seq<(String, String)>) -> Seq<(Seq<char>, Seq<char>)> {
    entries.map_values(|p: (String, String)| (p.0@, p.1@))
}

/// Relies on std's FromIterator for String: collects the characters in order.
#[verifier::external_body]
pub(crate) fn chars_to_string(chars: &Vec<char>) -> (r: String)
    ensures
        r@ == chars@,
{
    chars.iter().collect()
}

/// Relies on time's UtcDateTime::from_unix_timestamp_nanos and its RFC 3339
/// formatting: the rendering depends on the instant alone, and fails only for
/// instants out of the calendar's range.
#[verifier::external_body]
fn format_rfc3339(nanos: i128) -> (r: Option<String>)
    ensures
        r is Some <==> rfc3339_text(nanos) is Some,
        r matches Some(s) ==> Some(s@) == rfc3339_text(nanos),
{
    match time::UtcDateTime::from_unix_timestamp_nanos(nanos) {
        Ok(dt) => dt.format(&time::format_description::well_known::Rfc3339).ok(),
        Err(_) => None,
    }
}

fn value_text(v: &AttrValue) -> (r: String)
    requires
        value_supported(*v),
    ensures
        r@ == json_of_value(*v),
{
    let mut out: Vec<char> = Vec::new();
    push_value(&mut out, v);
    proof {
        assert(out@ =~= json_of_value(*v));
    }
    chars_to_string(&out)
}

fn string_text(s: &str) -> (r: String)
    ensures
        r@ == json_string(s@),
{
    let mut out: Vec<char> = Vec::new();
    push_json_string(&mut out, s);
    proof {
        assert(out@ =~= json_string(s@));
    }
    chars_to_string(&out)
}

fn dec_u128_text(n: u128) -> (r: String)
    ensures
        r@ == dec_nat(n as nat),
{
    let mut out: Vec<char> = Vec::new();
    push_dec_u128(&mut out, n);
    proof {
        assert(out@ =~= dec_nat(n as nat));
    }
    chars_to_string(&out)
}

/// Whether the sink can represent the record; see [`record_supported`].
#[verifier::loop_isolation(false)]
pub fn check_record_supported(record: &LogRecord) -> (r: bool)
    ensures
        r == record_supported(*record),
{
    if let Some(v) = &record.body {
        if !check_value_supported(v) {
            return false;
        }
    }
    let attrs = &record.attributes;
    let mut i: usize = 0;
    while i < attrs.len()
        invariant
            i <= attrs@.len(),
            entries_supported(attrs@, 0) == entries_supported(attrs@, i as int),
        decreases attrs@.len() - i,
    {
        if !check_value_supported(&attrs[i].1) {
            return false;
        }
        i = i + 1;
    }
    true
}

#[verifier::loop_isolation(false)]
fn collect_entries(record: &LogRecord) -> (r: Vec<(String, String)>)
    requires
        record_supported(*record),
    ensures
        entry_views(r@) == record_entries(*record),
{
    let mut entries: Vec<(String, String)> = Vec::new();
    if let Some(v) = &record.body {
        entries.push((String::from_str("message"), value_text(v)));
    }
    let ts = match record.timestamp_nanos {
        Some(t) => Some(t),
        None => record.observed_timestamp_nanos,
    };
    if let Some(t) = ts {
        if let Some(txt) = format_rfc3339(t) {
            entries.push((String::from_str("timestamp"), string_text(txt.as_str())));
        }
    }
    if let Some(sev) = &record.severity_text {
        entries.push((String::from_str("level"), string_text(sev.as_str())));
    }
    if let Some(c) = &record.trace_context {
        entries.push((String::from_str("dd.trace_id"), dec_u128_text(c.trace_id)));
        entries.push((String::from_str("dd.span_id"), dec_u128_text(c.span_id as u128)));
    }
    let ghost head = record_entries(*record);
    proof {
        assert(entry_views(entries@) + attribute_entries_from(record.attributes@, 0) =~= head);
    }
    let attrs = &record.attributes;
    let mut i: usize = 0;
    while i < attrs.len()
        invariant
            i <= attrs@.len(),
            entries_supported(attrs@, i as int),
            entry_views(entries@) + attribute_entries_from(attrs@, i as int) == head,
        decreases attrs@.len() - i,
    {
        let ghost before = entry_views(entries@);
        let mut key = String::from_str("fields.");
        key.append(attrs[i].0.as_str());
        entries.push((key, value_text(&attrs[i].1)));
        proof {
            assert(entry_views(entries@) =~= before + seq![
                ("fields."@ + attrs@[i as int].0@, json_of_value(attrs@[i as int].1)),
            ]);
            assert(entry_views(entries@) + attribute_entries_from(attrs@, i + 1 as int) =~= before
                + attribute_entries_from(attrs@, i as int));
        }
        i = i + 1;
    }
    proof {
        assert(entry_views(entries@) =~= head);
    }
    entries
}

#[verifier::loop_isolation(false)]
fn join_entries(entries: &Vec<(String, String)>) -> (r: Vec<char>)
    ensures
        r@ == seq!['{'] + joined_entries(entry_views(entries@), 0) + seq!['}'],
{
    let ghost ev = entry_views(entries@);
    let mut out: Vec<char> = Vec::new();
    out.push('{');
    let mut i: usize = 0;
    while i < entries.len()
        invariant
            i <= entries@.len(),
            out@ + joined_entries(ev, i as int) == seq!['{'] + joined_entries(ev, 0),
        decreases entries@.len() - i,
    {
        let ghost before = out@;
        proof {
            assert(ev[i as int] == (entries@[i as int].0@, entries@[i as int].1@));
        }
        if i > 0 {
            out.push(',');
        }
        push_json_string(&mut out, entries[i].0.as_str());
        out.push(':');
        push_verbatim(&mut out, entries[i].1.as_str());
        proof {
            assert(out@ + joined_entries(ev, i + 1 as int) =~= before + joined_entries(
                ev,
                i as int,
            ));
        }
        i = i + 1;
    }
    out.push('}');
    proof {
        assert(out@ =~= seq!['{'] + joined_entries(ev, 0) + seq!['}']);
    }
    out
}

/// Encodes one record as its JSON object text; a record holding a value the
/// sink cannot represent is a hard serialization error.
pub fn encode_log_record(record: &LogRecord) -> (r: Result<String, ExportError>)
    ensures
        r is Ok <==> record_supported(*record),
        r matches Ok(s) ==> s@ == json_of_record(*record),
        r is Err ==> r == Err::<String, ExportError>(ExportError::Unsupported),
{
    if !check_record_supported(record) {
        return Err(ExportError::Unsupported);
    }
    let entries = collect_entries(record);
    let out = join_entries(&entries);
    Ok(chars_to_string(&out))
}

// ---------------------------------------------------------------------------
// The line-oriented log exporter
// ---------------------------------------------------------------------------

/// Every record of the batch from position `i` on is representable.
pub open spec fn batch_supported(records: Seq<LogRecord>, i: int) -> bool
    decreases records.len() - i,
{
    if 0 <= i < records.len() {
        record_supported(records[i]) && batch_supported(records, i + 1)
    } else {
        true
    }
}

/// The batch from position `i` on as line-oriented text: each record's JSON
/// object on a line of its own.
pub open spec fn batch_text(records: Seq<LogRecord>, i: int) -> Seq<char>
    decreases records.len() - i,
{
    if 0 <= i < records.len() {
        json_of_record(records[i]) + seq!['\n'] + batch_text(records, i + 1)
    } else {
        Seq::empty()
    }
}

/// The log exporter for a byte destination (a file or standard output): it
/// turns each batch into line-oriented JSON text, and refuses batches after
/// it was shut down. Writing the text out is the embedding's part.
#[derive(Debug)]
pub struct IoLogExporter {
    is_shutdown: bool,
}

impl IoLogExporter {
    /// The exporter has been shut down and refuses further batches.
    pub closed spec fn spec_is_shutdown(self) -> bool {
        self.is_shutdown
    }

    /// Creates an exporter that accepts batches.
    pub fn new() -> (r: Self)
        ensures
            !r.spec_is_shutdown(),
    {
        IoLogExporter { is_shutdown: false }
    }

    /// Renders a batch as the text to write: one JSON object per record, each
    /// on its own line. After shutdown every batch is refused; a batch with a
    /// value the sink cannot represent is a serialization error.
    #[verifier::loop_isolation(false)]
    pub fn export(&self, batch: &Vec<LogRecord>) -> (r: Result<String, ExportError>)
        ensures
            self.spec_is_shutdown() ==> r == Err::<String, ExportError>(
                ExportError::AlreadyShutdown,
            ),
            !self.spec_is_shutdown() ==> ((r is Ok <==> batch_supported(batch@, 0)) && (r matches
            Ok(s) ==> s@ == batch_text(batch@, 0)) && (r is Err ==> r == Err::<
                String,
                ExportError,
            >(ExportError::Unsupported))),
    {
        if self.is_shutdown {
            return Err(ExportError::AlreadyShutdown);
        }
        let mut i: usize = 0;
        while i < batch.len()
            invariant
                i <= batch@.len(),
                batch_supported(batch@, 0) == batch_supported(batch@, i as int),
            decreases batch@.len() - i,
        {
            if !check_record_supported(&batch[i]) {
                return Err(ExportError::Unsupported);
            }
            i = i + 1;
        }
        let mut out: Vec<char> = Vec::new();
        let mut j: usize = 0;
        while j < batch.len()
            invariant
                j <= batch@.len(),
                batch_supported(batch@, j as int),
                out@ + batch_text(batch@, j as int) == batch_text(batch@, 0),
            decreases batch@.len() - j,
        {
            let ghost before = out@;
            let line = match encode_log_record(&batch[j]) {
                Ok(line) => line,
                Err(e) => {
                    proof {
                        assert(false);
                    }
                    return Err(e);
                },
            };
            push_verbatim(&mut out, line.as_str());
            out.push('\n');
            proof {
                assert(out@ + batch_text(batch@, j + 1 as int) =~= before + batch_text(
                    batch@,
                    j as int,
                ));
            }
            j = j + 1;
        }
        proof {
            assert(out@ =~= batch_text(batch@, 0));
        }
        Ok(chars_to_string(&out))
    }

    /// Marks the exporter shut down; always succeeds, whatever the limit.
    pub fn shutdown_with_timeout(&mut self, _timeout_millis: u64) -> (r: Result<(), ExportError>)
        ensures
            final(self).spec_is_shutdown(),
            r is Ok,
    {
        self.is_shutdown = true;
        Ok(())
    }
}

} // verus!
