//! Representation and wire-code mapping for the compression method field of
//! an archive entry.
//!
//! A `CompressionMethod` names the algorithm an entry was compressed with.
//! The mapping to the 16-bit code stored on disk is total in both directions:
//! every code decodes to exactly one value, and codes bound to no known
//! algorithm are carried unchanged in the `Unsupported` variant rather than
//! rejected.

use vstd::prelude::*;
use vstd::string::StringExecFns;

verus! {

/// Compression methods for the contents of an archive entry.
#[derive(Copy, Clone, PartialEq, Eq, Structural, Debug)]
pub enum CompressionMethod {
    /// The entry is stored (no compression).
    Stored,
    /// The entry is compressed with the DEFLATE algorithm.
    Deflated,
    /// The entry is compressed with the BZIP2 algorithm.
    Bzip2,
    /// Any wire code bound to no known algorithm; carries that exact code.
    Unsupported(u16),
}

/// The wire code a method encodes to.
pub open spec fn spec_to_u16(m: CompressionMethod) -> u16 {
    match m {
        CompressionMethod::Stored => 0,
        CompressionMethod::Deflated => 8,
        CompressionMethod::Bzip2 => 12,
        CompressionMethod::Unsupported(v) => v,
    }
}

/// Whether a wire code belongs to a known (named) method.
pub open spec fn is_known_code(v: u16) -> bool {
    v == 0 || v == 8 || v == 12
}

/// Whether a method is a known (named) variant rather than the catch-all.
pub open spec fn is_known(m: CompressionMethod) -> bool {
    !(m is Unsupported)
}

/// The method a wire code decodes to.
pub open spec fn spec_from_u16(v: u16) -> CompressionMethod {
    if v == 0 {
        CompressionMethod::Stored
    } else if v == 8 {
        CompressionMethod::Deflated
    } else if v == 12 {
        CompressionMethod::Bzip2
    } else {
        CompressionMethod::Unsupported(v)
    }
}

impl CompressionMethod {
    /// Converts a u16 wire code to its corresponding `CompressionMethod`.
    ///
    /// Total: every code yields exactly one value, and re-encoding that value
    /// gives the code back.
    pub fn from_u16(val: u16) -> (m: CompressionMethod)
        ensures
            m == spec_from_u16(val),
            spec_to_u16(m) == val,
    {
        match val {
            0 => CompressionMethod::Stored,
            8 => CompressionMethod::Deflated,
            12 => CompressionMethod::Bzip2,
            v => CompressionMethod::Unsupported(v),
        }
    }

    /// Converts a `CompressionMethod` to its u16 wire code.
    pub fn to_u16(self) -> (v: u16)
        ensures
            v == spec_to_u16(self),
    {
        match self {
            CompressionMethod::Stored => 0,
            CompressionMethod::Deflated => 8,
            CompressionMethod::Bzip2 => 12,
            CompressionMethod::Unsupported(v) => v,
        }
    }
}

/// The character for a single decimal digit.
pub open spec fn spec_digit(d: int) -> char {
    if d == 0 {
        '0'
    } else if d == 1 {
        '1'
    } else if d == 2 {
        '2'
    } else if d == 3 {
        '3'
    } else if d == 4 {
        '4'
    } else if d == 5 {
        '5'
    } else if d == 6 {
        '6'
    } else if d == 7 {
        '7'
    } else if d == 8 {
        '8'
    } else {
        '9'
    }
}

/// The decimal rendering of a non-negative integer, most significant digit
/// first, with no leading zeros (a lone zero renders as "0").
pub open spec fn spec_decimal(n: int) -> Seq<char>
    decreases n,
{
    if n < 10 {
        seq![spec_digit(n)]
    } else {
        spec_decimal(n / 10) + seq![spec_digit(n % 10)]
    }
}

/// The canonical textual rendering of a method: the variant's name, with the
/// carried code in decimal for `Unsupported`. Every textual view of a value
/// goes through this one definition, so no two views can drift apart.
pub open spec fn spec_render(m: CompressionMethod) -> Seq<char> {
    match m {
        CompressionMethod::Stored => "Stored"@,
        CompressionMethod::Deflated => "Deflated"@,
        CompressionMethod::Bzip2 => "Bzip2"@,
        CompressionMethod::Unsupported(v) => "Unsupported("@ + spec_decimal(v as int) + ")"@,
    }
}

/// The one-character string for a single decimal digit.
fn digit_str(d: u16) -> (c: &'static str)
    requires
        d < 10,
    ensures
        c@ == seq![spec_digit(d as int)],
{
    let c: &'static str = match d {
        0 => "0",
        1 => "1",
        2 => "2",
        3 => "3",
        4 => "4",
        5 => "5",
        6 => "6",
        7 => "7",
        8 => "8",
        _ => "9",
    };
    proof {
        reveal_strlit("0");
        reveal_strlit("1");
        reveal_strlit("2");
        reveal_strlit("3");
        reveal_strlit("4");
        reveal_strlit("5");
        reveal_strlit("6");
        reveal_strlit("7");
        reveal_strlit("8");
        reveal_strlit("9");
    }
    c
}

/// Appends the decimal rendering of `v` to `out`.
fn append_decimal(v: u16, out: &mut String)
    ensures
        final(out)@ == old(out)@ + spec_decimal(v as int),
    decreases v,
{
    if v >= 10 {
        append_decimal(v / 10, out);
    }
    let d: u16 = v % 10;
    out.append(digit_str(d));
}

impl CompressionMethod {
    /// Renders a method as human-readable text: its variant name, with the
    /// carried code in decimal for `Unsupported`.
    pub fn render(self) -> (r: String)
        ensures
            r@ == spec_render(self),
    {
        match self {
            CompressionMethod::Stored => "Stored".to_owned(),
            CompressionMethod::Deflated => "Deflated".to_owned(),
            CompressionMethod::Bzip2 => "Bzip2".to_owned(),
            CompressionMethod::Unsupported(v) => {
                let mut s = "Unsupported(".to_owned();
                append_decimal(v, &mut s);
                s.append(")");
                s
            },
        }
    }
}

/// Decoding a wire code and encoding the result reproduces the code: the
/// mapping loses nothing over the full 16-bit space.
pub proof fn lemma_code_round_trip(v: u16)
    ensures
        spec_to_u16(spec_from_u16(v)) == v,
{
}

/// Encoding is stable under one decode/encode cycle: for every method,
/// decoding its code yields a value that encodes to the same code.
pub proof fn lemma_method_round_trip(m: CompressionMethod)
    ensures
        spec_to_u16(spec_from_u16(spec_to_u16(m))) == spec_to_u16(m),
{
}

/// No two known variants share a wire code.
pub proof fn lemma_known_codes_injective(a: CompressionMethod, b: CompressionMethod)
    requires
        is_known(a),
        is_known(b),
        spec_to_u16(a) == spec_to_u16(b),
    ensures
        a == b,
{
}

/// A code claimed by no known variant decodes to `Unsupported` carrying that
/// exact code, and encoding `Unsupported` passes the code through unchanged.
pub proof fn lemma_unsupported_pass_through(v: u16)
    requires
        !is_known_code(v),
    ensures
        spec_from_u16(v) == CompressionMethod::Unsupported(v),
        spec_to_u16(CompressionMethod::Unsupported(v)) == v,
{
}

} // verus!
