//! Small text formats the broadcaster emits and inspects: decimal numbers,
//! the "MM:SS" elapsed-time counter, the relay's configuration file, and the
//! string comparisons the classifier needs.

use vstd::prelude::*;
use vstd::string::StringSliceAdditionalSpecFns;
use vstd::string::StringExecFns;

verus! {

/// The character for one decimal digit.
pub open spec fn digit(d: nat) -> char
    recommends
        d < 10,
{
    if d == 0 {
        '0'
    } else if d == 1 {
        '1'
    } else if d == 2 {
        '2'
    } else if d == 3 {
        '3'
    } else if d == 4 {
        '4'
    } else if d == 5 {
        '5'
    } else if d == 6 {
        '6'
    } else if d == 7 {
        '7'
    } else if d == 8 {
        '8'
    } else {
        '9'
    }
}

/// The decimal digits of `n`, most significant first, no leading zeros.
pub open spec fn dec_str(n: nat) -> Seq<char>
    decreases n,
{
    if n < 10 {
        seq![digit(n)]
    } else {
        dec_str(n / 10).push(digit(n % 10))
    }
}

/// `n` zero-padded to at least two digits, as a clock field shows it.
pub open spec fn two_digits(n: nat) -> Seq<char> {
    if n < 10 {
        seq!['0', digit(n)]
    } else {
        dec_str(n)
    }
}

/// The elapsed-time counter "MM:SS" for a stream time in nanoseconds.
pub open spec fn spec_mmss(ns: u64) -> Seq<char> {
    two_digits((ns / 60_000_000_000) as nat) + seq![':'] + two_digits(
        ((ns / 1_000_000_000) % 60) as nat,
    )
}

/// The full counter text: elapsed time, then " / " and the item's length
/// when one is known.
pub open spec fn spec_counter_text(pts_ns: u64, duration_ns: Option<u64>) -> Seq<char> {
    match duration_ns {
        Some(d) => spec_mmss(pts_ns) + " / "@ + spec_mmss(d),
        None => spec_mmss(pts_ns),
    }
}

/// The relay process's configuration: one path entry that pulls the program
/// from the internal ingest and serves it on demand.
pub open spec fn spec_mediamtx_config(key: Seq<char>, port: nat) -> Seq<char> {
    "paths:\n   "@ + key + ":\n     source: rtsp://127.0.0.1:"@ + dec_str(port) + "/"@ + key
        + "\n     sourceOnDemand: yes\n"@
}

fn digit_str(d: u8) -> (r: &'static str)
    requires
        d < 10,
    ensures
        r@ == seq![digit(d as nat)],
{
    let r: &'static str = if d == 0 {
        proof {
            reveal_strlit("0");
        }
        "0"
    } else if d == 1 {
        proof {
            reveal_strlit("1");
        }
        "1"
    } else if d == 2 {
        proof {
            reveal_strlit("2");
        }
        "2"
    } else if d == 3 {
        proof {
            reveal_strlit("3");
        }
        "3"
    } else if d == 4 {
        proof {
            reveal_strlit("4");
        }
        "4"
    } else if d == 5 {
        proof {
            reveal_strlit("5");
        }
        "5"
    } else if d == 6 {
        proof {
            reveal_strlit("6");
        }
        "6"
    } else if d == 7 {
        proof {
            reveal_strlit("7");
        }
        "7"
    } else if d == 8 {
        proof {
            reveal_strlit("8");
        }
        "8"
    } else {
        proof {
            reveal_strlit("9");
        }
        "9"
    };
    proof {
        assert(r@ =~= seq![digit(d as nat)]);
    }
    r
}

/// `n` in decimal, no leading zeros.
pub fn u64_to_dec(n: u64) -> (r: String)
    ensures
        r@ == dec_str(n as nat),
    decreases n,
{
    if n < 10 {
        let mut s = String::new();
        s.append(digit_str(n as u8));
        proof {
            assert(s@ =~= dec_str(n as nat));
        }
        s
    } else {
        let mut s = u64_to_dec(n / 10);
        s.append(digit_str((n % 10) as u8));
        proof {
            assert(s@ =~= dec_str(n as nat));
        }
        s
    }
}

/// `n` zero-padded to at least two digits.
pub fn u64_two_digits(n: u64) -> (r: String)
    ensures
        r@ == two_digits(n as nat),
{
    if n < 10 {
        let mut s = String::new();
        proof {
            reveal_strlit("0");
        }
        s.append("0");
        s.append(digit_str(n as u8));
        proof {
            assert(s@ =~= two_digits(n as nat));
        }
        s
    } else {
        u64_to_dec(n)
    }
}

/// The elapsed-time counter "MM:SS" for a stream time in nanoseconds.
pub fn format_mmss(ns: u64) -> (r: String)
    ensures
        r@ == spec_mmss(ns),
{
    let minutes = ns / 60_000_000_000;
    let seconds = (ns / 1_000_000_000) % 60;
    let mut s = u64_two_digits(minutes);
    proof {
        reveal_strlit(":");
    }
    s.append(":");
    let sec = u64_two_digits(seconds);
    s.append(sec.as_str());
    proof {
        assert(":"@ =~= seq![':']);
        assert(s@ =~= spec_mmss(ns));
    }
    s
}

/// The full counter text: elapsed time, then " / " and the item's length
/// when one is known.
pub fn counter_text(pts_ns: u64, duration_ns: Option<u64>) -> (r: String)
    ensures
        r@ == spec_counter_text(pts_ns, duration_ns),
{
    let mut s = format_mmss(pts_ns);
    match duration_ns {
        Some(d) => {
            proof {
                reveal_strlit(" / ");
            }
            s.append(" / ");
            let tail = format_mmss(d);
            s.append(tail.as_str());
            proof {
                assert(s@ =~= spec_counter_text(pts_ns, duration_ns));
            }
            s
        },
        None => s,
    }
}

/// The relay process's configuration text for one stream key and the
/// internal ingest port.
pub fn mediamtx_config(stream_key: &str, rtsp_port: u16) -> (r: String)
    ensures
        r@ == spec_mediamtx_config(stream_key@, rtsp_port as nat),
{
    let mut s = String::new();
    proof {
        reveal_strlit("paths:\n   ");
        reveal_strlit(":\n     source: rtsp://127.0.0.1:");
        reveal_strlit("/");
        reveal_strlit("\n     sourceOnDemand: yes\n");
    }
    s.append("paths:\n   ");
    s.append(stream_key);
    s.append(":\n     source: rtsp://127.0.0.1:");
    let port = u64_to_dec(rtsp_port as u64);
    s.append(port.as_str());
    s.append("/");
    s.append(stream_key);
    s.append("\n     sourceOnDemand: yes\n");
    proof {
        assert(s@ =~= spec_mediamtx_config(stream_key@, rtsp_port as nat));
    }
    s
}

/// Whether two byte slices hold the same bytes.
pub fn bytes_eq(a: &[u8], b: &[u8]) -> (r: bool)
    ensures
        r == (a@ == b@),
{
    if a.len() != b.len() {
        return false;
    }
    let mut i: usize = 0;
    while i < a.len()
        invariant
            i <= a.len(),
            a@.len() == b@.len(),
            forall|j: int| 0 <= j < i ==> a@[j] == b@[j],
        decreases a.len() - i,
    {
        if a[i] != b[i] {
            return false;
        }
        i = i + 1;
    }
    proof {
        assert(a@ =~= b@);
    }
    true
}

/// Whether two strings hold the same characters.
pub fn str_eq(a: &str, b: &str) -> (r: bool)
    ensures
        r == (a@ == b@),
{
    let r = bytes_eq(a.as_bytes(), b.as_bytes());
    proof {
        if a.spec_bytes() == b.spec_bytes() {
            broadcast use vstd::utf8::encode_utf8_decode_utf8;

            assert(vstd::utf8::decode_utf8(vstd::utf8::encode_utf8(a@)) == a@);
            assert(vstd::utf8::decode_utf8(vstd::utf8::encode_utf8(b@)) == b@);
        }
    }
    r
}

/// An upper-case ASCII letter folded to lower case; any other byte as it is.
pub open spec fn lower_byte(b: u8) -> u8 {
    if 65 <= b <= 90 {
        (b + 32) as u8
    } else {
        b
    }
}

/// Byte-wise equality up to ASCII case.
pub open spec fn eq_ignore_case_bytes(a: Seq<u8>, b: Seq<u8>) -> bool {
    a.len() == b.len() && forall|j: int| 0 <= j < a.len() ==> lower_byte(a[j]) == lower_byte(b[j])
}

/// Whether two strings are equal up to ASCII case, byte for byte.
pub fn ascii_eq_ignore_case(a: &str, b: &str) -> (r: bool)
    ensures
        r == eq_ignore_case_bytes(a.spec_bytes(), b.spec_bytes()),
{
    let ab = a.as_bytes();
    let bb = b.as_bytes();
    if ab.len() != bb.len() {
        return false;
    }
    let mut i: usize = 0;
    while i < ab.len()
        invariant
            i <= ab.len(),
            ab@ == a.spec_bytes(),
            bb@ == b.spec_bytes(),
            ab@.len() == bb@.len(),
            forall|j: int| 0 <= j < i ==> lower_byte(ab@[j]) == lower_byte(bb@[j]),
        decreases ab.len() - i,
    {
        let x = ab[i];
        let y = bb[i];
        let xl = if 65 <= x && x <= 90 {
            x + 32
        } else {
            x
        };
        let yl = if 65 <= y && y <= 90 {
            y + 32
        } else {
            y
        };
        if xl != yl {
            proof {
                if eq_ignore_case_bytes(ab@, bb@) {
                    assert(lower_byte(ab@[i as int]) == lower_byte(bb@[i as int]));
                }
            }
            return false;
        }
        i = i + 1;
    }
    true
}

/// Whether `p` is a prefix of `s`.
pub open spec fn bytes_prefix(p: Seq<u8>, s: Seq<u8>) -> bool {
    p.len() <= s.len() && s.take(p.len() as int) == p
}

/// Whether the string starts with the given prefix, byte for byte.
pub fn str_starts_with(s: &str, prefix: &str) -> (r: bool)
    ensures
        r == bytes_prefix(prefix.spec_bytes(), s.spec_bytes()),
{
    let sb = s.as_bytes();
    let pb = prefix.as_bytes();
    if pb.len() > sb.len() {
        return false;
    }
    let mut i: usize = 0;
    while i < pb.len()
        invariant
            i <= pb.len(),
            sb@ == s.spec_bytes(),
            pb@ == prefix.spec_bytes(),
            pb@.len() <= sb@.len(),
            forall|j: int| 0 <= j < i ==> sb@[j] == pb@[j],
        decreases pb.len() - i,
    {
        if sb[i] != pb[i] {
            proof {
                if bytes_prefix(pb@, sb@) {
                    assert(sb@.take(pb@.len() as int) == pb@);
                    assert(sb@.take(pb@.len() as int)[i as int] == sb@[i as int]);
                    assert(pb@[i as int] == sb@[i as int]);
                }
            }
            return false;
        }
        i = i + 1;
    }
    proof {
        assert(sb@.take(pb@.len() as int) =~= pb@);
    }
    true
}

} // verus!
