//! The legacy text decoder: strict UTF-8 first, with a fixed 128-entry
//! codepage fallback for byte sequences that are not valid UTF-8, and
//! trimming of surrounding whitespace. Arbitrary bytes always decode.

use vstd::prelude::*;
use vstd::utf8::{valid_utf8, decode_utf8, is_leading_byte_width_1, valid_first_scalar,
    valid_leading_and_continuation_bytes_first_codepoint, length_of_first_scalar,
    pop_first_scalar, decode_first_scalar};
use crate::text::{trim, trim_spec, trim_start_spec, trim_end_spec, is_wsp};

verus! {

/// The translation of a high byte (the low seven bits index a fixed
/// codepage-to-Unicode table of 128 entries).
pub open spec fn cp850_char(b: u8) -> char
    recommends
        b >= 128,
{
    match b {
        128u8 => '\u{00C7}',
        129u8 => '\u{00FC}',
        130u8 => '\u{00E9}',
        131u8 => '\u{00E2}',
        132u8 => '\u{00E4}',
        133u8 => '\u{00E0}',
        134u8 => '\u{00E5}',
        135u8 => '\u{00E7}',
        136u8 => '\u{00EA}',
        137u8 => '\u{00EB}',
        138u8 => '\u{00E8}',
        139u8 => '\u{00EF}',
        140u8 => '\u{00EE}',
        141u8 => '\u{00EC}',
        142u8 => '\u{00C4}',
        143u8 => '\u{00C5}',
        144u8 => '\u{00C9}',
        145u8 => '\u{00E6}',
        146u8 => '\u{00C6}',
        147u8 => '\u{00F4}',
        148u8 => '\u{00F6}',
        149u8 => '\u{00F2}',
        150u8 => '\u{00FB}',
        151u8 => '\u{00F9}',
        152u8 => '\u{00FF}',
        153u8 => '\u{00D6}',
        154u8 => '\u{00DC}',
        155u8 => '\u{00F8}',
        156u8 => '\u{00A3}',
        157u8 => '\u{00D8}',
        158u8 => '\u{00D7}',
        159u8 => '\u{0192}',
        160u8 => '\u{00E1}',
        161u8 => '\u{00ED}',
        162u8 => '\u{00F3}',
        163u8 => '\u{00FA}',
        164u8 => '\u{00F1}',
        165u8 => '\u{00D1}',
        166u8 => '\u{00AA}',
        167u8 => '\u{00BA}',
        168u8 => '\u{00BF}',
        169u8 => '\u{00AE}',
        170u8 => '\u{00AC}',
        171u8 => '\u{00BD}',
        172u8 => '\u{00BC}',
        173u8 => '\u{00A1}',
        174u8 => '\u{00AB}',
        175u8 => '\u{00BB}',
        176u8 => '\u{2591}',
        177u8 => '\u{2592}',
        178u8 => '\u{2593}',
        179u8 => '\u{2502}',
        180u8 => '\u{2524}',
        181u8 => '\u{00C1}',
        182u8 => '\u{00C2}',
        183u8 => '\u{00C0}',
        184u8 => '\u{00A9}',
        185u8 => '\u{2563}',
        186u8 => '\u{2551}',
        187u8 => '\u{2557}',
        188u8 => '\u{255D}',
        189u8 => '\u{00A2}',
        190u8 => '\u{00A5}',
        191u8 => '\u{2510}',
        192u8 => '\u{2514}',
        193u8 => '\u{2534}',
        194u8 => '\u{252C}',
        195u8 => '\u{251C}',
        196u8 => '\u{2500}',
        197u8 => '\u{253C}',
        198u8 => '\u{00E3}',
        199u8 => '\u{00C3}',
        200u8 => '\u{255A}',
        201u8 => '\u{2554}',
        202u8 => '\u{2569}',
        203u8 => '\u{2566}',
        204u8 => '\u{2560}',
        205u8 => '\u{2550}',
        206u8 => '\u{256C}',
        207u8 => '\u{00A4}',
        208u8 => '\u{00F0}',
        209u8 => '\u{00D0}',
        210u8 => '\u{00CA}',
        211u8 => '\u{00CB}',
        212u8 => '\u{00C8}',
        213u8 => '\u{0131}',
        214u8 => '\u{00CD}',
        215u8 => '\u{00CE}',
        216u8 => '\u{00CF}',
        217u8 => '\u{2518}',
        218u8 => '\u{250C}',
        219u8 => '\u{2588}',
        220u8 => '\u{2584}',
        221u8 => '\u{00A6}',
        222u8 => '\u{00CC}',
        223u8 => '\u{2580}',
        224u8 => '\u{00D3}',
        225u8 => '\u{00DF}',
        226u8 => '\u{00D4}',
        227u8 => '\u{00D2}',
        228u8 => '\u{00F5}',
        229u8 => '\u{00D5}',
        230u8 => '\u{00B5}',
        231u8 => '\u{00FE}',
        232u8 => '\u{00DE}',
        233u8 => '\u{00DA}',
        234u8 => '\u{00DB}',
        235u8 => '\u{00D9}',
        236u8 => '\u{00FD}',
        237u8 => '\u{00DD}',
        238u8 => '\u{00AF}',
        239u8 => '\u{00B4}',
        240u8 => '\u{00AD}',
        241u8 => '\u{00B1}',
        242u8 => '\u{2017}',
        243u8 => '\u{00BE}',
        244u8 => '\u{00B6}',
        245u8 => '\u{00A7}',
        246u8 => '\u{00F7}',
        247u8 => '\u{00B8}',
        248u8 => '\u{00B0}',
        249u8 => '\u{00A8}',
        250u8 => '\u{00B7}',
        251u8 => '\u{00B9}',
        252u8 => '\u{00B3}',
        253u8 => '\u{00B2}',
        254u8 => '\u{25A0}',
        255u8 => '\u{00A0}',
        _ => ' ',
    }
}

/// Looks a high byte up in the codepage table.
pub fn cp850_lookup(b: u8) -> (c: char)
    requires
        b >= 128,
    ensures
        c == cp850_char(b),
{
    match b {
        128u8 => '\u{00C7}',
        129u8 => '\u{00FC}',
        130u8 => '\u{00E9}',
        131u8 => '\u{00E2}',
        132u8 => '\u{00E4}',
        133u8 => '\u{00E0}',
        134u8 => '\u{00E5}',
        135u8 => '\u{00E7}',
        136u8 => '\u{00EA}',
        137u8 => '\u{00EB}',
        138u8 => '\u{00E8}',
        139u8 => '\u{00EF}',
        140u8 => '\u{00EE}',
        141u8 => '\u{00EC}',
        142u8 => '\u{00C4}',
        143u8 => '\u{00C5}',
        144u8 => '\u{00C9}',
        145u8 => '\u{00E6}',
        146u8 => '\u{00C6}',
        147u8 => '\u{00F4}',
        148u8 => '\u{00F6}',
        149u8 => '\u{00F2}',
        150u8 => '\u{00FB}',
        151u8 => '\u{00F9}',
        152u8 => '\u{00FF}',
        153u8 => '\u{00D6}',
        154u8 => '\u{00DC}',
        155u8 => '\u{00F8}',
        156u8 => '\u{00A3}',
        157u8 => '\u{00D8}',
        158u8 => '\u{00D7}',
        159u8 => '\u{0192}',
        160u8 => '\u{00E1}',
        161u8 => '\u{00ED}',
        162u8 => '\u{00F3}',
        163u8 => '\u{00FA}',
        164u8 => '\u{00F1}',
        165u8 => '\u{00D1}',
        166u8 => '\u{00AA}',
        167u8 => '\u{00BA}',
        168u8 => '\u{00BF}',
        169u8 => '\u{00AE}',
        170u8 => '\u{00AC}',
        171u8 => '\u{00BD}',
        172u8 => '\u{00BC}',
        173u8 => '\u{00A1}',
        174u8 => '\u{00AB}',
        175u8 => '\u{00BB}',
        176u8 => '\u{2591}',
        177u8 => '\u{2592}',
        178u8 => '\u{2593}',
        179u8 => '\u{2502}',
        180u8 => '\u{2524}',
        181u8 => '\u{00C1}',
        182u8 => '\u{00C2}',
        183u8 => '\u{00C0}',
        184u8 => '\u{00A9}',
        185u8 => '\u{2563}',
        186u8 => '\u{2551}',
        187u8 => '\u{2557}',
        188u8 => '\u{255D}',
        189u8 => '\u{00A2}',
        190u8 => '\u{00A5}',
        191u8 => '\u{2510}',
        192u8 => '\u{2514}',
        193u8 => '\u{2534}',
        194u8 => '\u{252C}',
        195u8 => '\u{251C}',
        196u8 => '\u{2500}',
        197u8 => '\u{253C}',
        198u8 => '\u{00E3}',
        199u8 => '\u{00C3}',
        200u8 => '\u{255A}',
        201u8 => '\u{2554}',
        202u8 => '\u{2569}',
        203u8 => '\u{2566}',
        204u8 => '\u{2560}',
        205u8 => '\u{2550}',
        206u8 => '\u{256C}',
        207u8 => '\u{00A4}',
        208u8 => '\u{00F0}',
        209u8 => '\u{00D0}',
        210u8 => '\u{00CA}',
        211u8 => '\u{00CB}',
        212u8 => '\u{00C8}',
        213u8 => '\u{0131}',
        214u8 => '\u{00CD}',
        215u8 => '\u{00CE}',
        216u8 => '\u{00CF}',
        217u8 => '\u{2518}',
        218u8 => '\u{250C}',
        219u8 => '\u{2588}',
        220u8 => '\u{2584}',
        221u8 => '\u{00A6}',
        222u8 => '\u{00CC}',
        223u8 => '\u{2580}',
        224u8 => '\u{00D3}',
        225u8 => '\u{00DF}',
        226u8 => '\u{00D4}',
        227u8 => '\u{00D2}',
        228u8 => '\u{00F5}',
        229u8 => '\u{00D5}',
        230u8 => '\u{00B5}',
        231u8 => '\u{00FE}',
        232u8 => '\u{00DE}',
        233u8 => '\u{00DA}',
        234u8 => '\u{00DB}',
        235u8 => '\u{00D9}',
        236u8 => '\u{00FD}',
        237u8 => '\u{00DD}',
        238u8 => '\u{00AF}',
        239u8 => '\u{00B4}',
        240u8 => '\u{00AD}',
        241u8 => '\u{00B1}',
        242u8 => '\u{2017}',
        243u8 => '\u{00BE}',
        244u8 => '\u{00B6}',
        245u8 => '\u{00A7}',
        246u8 => '\u{00F7}',
        247u8 => '\u{00B8}',
        248u8 => '\u{00B0}',
        249u8 => '\u{00A8}',
        250u8 => '\u{00B7}',
        251u8 => '\u{00B9}',
        252u8 => '\u{00B3}',
        253u8 => '\u{00B2}',
        254u8 => '\u{25A0}',
        255u8 => '\u{00A0}',
        _ => ' ',
    }
}

/// A byte decoded on the fallback path: ASCII bytes map to themselves,
/// high bytes go through the codepage table.
pub open spec fn fallback_char(b: u8) -> char {
    if b < 128 {
        b as char
    } else {
        cp850_char(b)
    }
}

pub open spec fn fallback_chars(s: Seq<u8>) -> Seq<char> {
    s.map_values(|b: u8| fallback_char(b))
}

/// The characters a byte sequence decodes to, before trimming: its UTF-8
/// decoding when it is valid UTF-8, the byte-by-byte fallback otherwise.
pub open spec fn raw_chars(s: Seq<u8>) -> Seq<char> {
    if valid_utf8(s) {
        decode_utf8(s)
    } else {
        fallback_chars(s)
    }
}

/// What `decode` returns: the decoded characters, trimmed.
pub open spec fn decode_spec(s: Seq<u8>) -> Seq<char> {
    trim_spec(raw_chars(s))
}

/// Relies on core::str::from_utf8: it returns `Ok` exactly when the bytes
/// are valid UTF-8, and the string then holds their UTF-8 decoding.
#[verifier::external_body]
fn utf8_chars(bytes: &Vec<u8>) -> (r: Option<Vec<char>>)
    ensures
        r is Some <==> valid_utf8(bytes@),
        (r matches Some(cs) ==> cs@ == decode_utf8(bytes@)),
{
    match core::str::from_utf8(bytes.as_slice()) {
        Ok(s) => Some(s.chars().collect()),
        Err(_) => None,
    }
}

/// Decodes a field: strict UTF-8 when possible, the codepage fallback
/// otherwise, trimmed of surrounding whitespace. Total: never fails.
pub fn decode(bytes: &Vec<u8>) -> (r: Vec<char>)
    ensures
        r@ == decode_spec(bytes@),
{
    let raw = match utf8_chars(bytes) {
        Some(cs) => cs,
        None => {
            let mut out: Vec<char> = Vec::new();
            let mut k: usize = 0;
            while k < bytes.len()
                invariant
                    k <= bytes@.len(),
                    out@ =~= bytes@.subrange(0, k as int).map_values(|b: u8| fallback_char(b)),
                decreases bytes@.len() - k,
            {
                let b = bytes[k];
                if b < 128 {
                    out.push(b as char);
                } else {
                    out.push(cp850_lookup(b));
                }
                proof {
                    assert(bytes@.subrange(0, k as int + 1).drop_last() =~= bytes@.subrange(
                        0,
                        k as int,
                    ));
                    assert(out@ =~= bytes@.subrange(0, k as int + 1).map_values(
                        |b: u8| fallback_char(b),
                    ));
                }
                k += 1;
            }
            proof {
                assert(bytes@.subrange(0, bytes@.len() as int) =~= bytes@);
                assert(out@ =~= fallback_chars(bytes@));
            }
            out
        },
    };
    trim(&raw)
}

/// A single byte below 128 is valid UTF-8 and decodes to the matching
/// ASCII character; when that character is no whitespace, `decode` on the
/// one-byte sequence returns exactly it.
pub proof fn lemma_decode_single_ascii(b: u8)
    requires
        b < 128,
        !is_wsp(b as char),
    ensures
        decode_spec(seq![b]) == seq![b as char],
{
    let s = seq![b];
    assert(is_leading_byte_width_1(b));
    assert((b & 0x7f) == b) by (bit_vector)
        requires
            b < 128,
    ;
    assert(valid_first_scalar(s));
    assert(length_of_first_scalar(s) == 1);
    assert(pop_first_scalar(s) =~= Seq::<u8>::empty());
    assert(valid_utf8(pop_first_scalar(s)));
    assert(valid_utf8(s));
    assert(decode_utf8(pop_first_scalar(s)) =~= Seq::<char>::empty());
    assert(decode_first_scalar(s) == b as u32);
    assert(decode_utf8(s) =~= seq![(b as u32) as char]);
    assert((b as u32) as char == b as char);
    assert(trim_spec(seq![b as char]) =~= seq![b as char]);
}

/// A single byte of 128 or above is not valid UTF-8, so `decode` takes the
/// fallback path: the result is the byte's codepage character, except for
/// the one table entry that is itself whitespace, which trimming removes.
pub proof fn lemma_decode_single_high(b: u8)
    requires
        b >= 128,
    ensures
        b != 255 ==> decode_spec(seq![b]) == seq![cp850_char(b)],
        b == 255 ==> decode_spec(seq![b]) == Seq::<char>::empty(),
{
    let s = seq![b];
    assert(!is_leading_byte_width_1(b));
    assert(!valid_leading_and_continuation_bytes_first_codepoint(s));
    assert(!valid_utf8(s));
    assert(fallback_chars(s) =~= seq![cp850_char(b)]);
    if b != 255 {
        assert(!is_wsp(cp850_char(b)));
        assert(trim_spec(seq![cp850_char(b)]) =~= seq![cp850_char(b)]);
    } else {
        assert(is_wsp(cp850_char(b)));
        let t = seq![cp850_char(b)];
        assert(t.drop_first() =~= Seq::<char>::empty());
        assert(trim_start_spec(t) == trim_start_spec(Seq::<char>::empty()));
        assert(trim_start_spec(Seq::<char>::empty()) =~= Seq::<char>::empty());
        assert(trim_end_spec(Seq::<char>::empty()) =~= Seq::<char>::empty());
    }
}

} // verus!
