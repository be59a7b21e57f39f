use vstd::prelude::*;

verus! {

/// The text of a decimal digit `d` (below ten).
pub open spec fn digit_char(d: nat) -> char {
    ((48 + d) as u8) as char
}

/// The shortest decimal text of `n`, as a JSON number.
pub open spec fn decimal(n: nat) -> Seq<char>
    decreases n,
{
    if n < 10 {
        seq![digit_char(n)]
    } else {
        decimal(n / 10).push(digit_char(n % 10))
    }
}

/// A JSON array of byte values, without the brackets: `112,111,...`.
pub open spec fn byte_list(bs: Seq<u8>) -> Seq<char>
    decreases bs.len(),
{
    if bs.len() == 0 {
        seq![]
    } else if bs.len() == 1 {
        decimal(bs[0] as nat)
    } else {
        byte_list(bs.drop_last()) + seq![','] + decimal(bs.last() as nat)
    }
}

pub open spec fn is_lower_hex(c: char) -> bool {
    ('0' <= c && c <= '9') || ('a' <= c && c <= 'f')
}

/// The hyphenated, lower-case text of a version-4 UUID:
/// `xxxxxxxx-xxxx-4xxx-yxxx-xxxxxxxxxxxx` with `y` one of `8`, `9`, `a`, `b`.
pub open spec fn is_uuid_v4_text(s: Seq<char>) -> bool {
    &&& s.len() == 36
    &&& forall|i: int|
        0 <= i < 36 ==> if i == 8 || i == 13 || i == 18 || i == 23 {
            #[trigger] s[i] == '-'
        } else {
            is_lower_hex(s[i])
        }
    &&& s[14] == '4'
    &&& (s[19] == '8' || s[19] == '9' || s[19] == 'a' || s[19] == 'b')
}

/// The project identifier that every session token carries: `polkahub`.
pub open spec fn project_name() -> Seq<u8> {
    seq![112u8, 111u8, 108u8, 107u8, 97u8, 104u8, 117u8, 98u8]
}

/// The claim record of a session token.
pub struct Claims {
    /// The project identifier, as eight bytes.
    pub project_name: [u8; 8],
    /// Nanoseconds since the Unix epoch.
    pub timestamp: u128,
    /// A version-4 UUID in its hyphenated lower-case text.
    pub uid: String,
}

impl Claims {
    /// Every field can be written out without escapes.
    pub open spec fn wf(&self) -> bool {
        is_uuid_v4_text(self.uid@)
    }

    /// The claim record for the current project.
    pub fn new(timestamp: u128, uid: String) -> (r: Claims)
        ensures
            r.project_name@ == project_name(),
            r.timestamp == timestamp,
            r.uid == uid,
    {
        let r = Claims {
            project_name: [112u8, 111u8, 108u8, 107u8, 97u8, 104u8, 117u8, 98u8],
            timestamp,
            uid,
        };
        assert(r.project_name@ =~= project_name());
        r
    }

    /// The JSON text of the record, as the middle segment of a session token
    /// carries it.
    pub fn to_json(&self) -> (r: String)
        requires
            self.wf(),
        ensures
            r@ == claims_json(self.project_name@, self.timestamp as nat, self.uid@),
    {
        let mut out = String::new();
        out.push_str("{\"project_name\":[");
        push_byte_list(&mut out, &self.project_name);
        out.push_str("],\"timestamp\":");
        push_decimal(&mut out, self.timestamp);
        out.push_str(",\"uid\":\"");
        out.push_str(self.uid.as_str());
        out.push_str("\"}");
        proof {
            assert(out@ =~= claims_json(self.project_name@, self.timestamp as nat, self.uid@));
        }
        out
    }
}

/// Appends the bytes as a comma-separated list of decimal integers.
fn push_byte_list(out: &mut String, bs: &[u8; 8])
    ensures
        final(out)@ == old(out)@ + byte_list(bs@),
{
    let mut i: usize = 0;
    while i < 8
        invariant
            0 <= i <= 8,
            bs@.len() == 8,
            out@ == old(out)@ + byte_list(bs@.subrange(0, i as int)),
        decreases 8 - i,
    {
        if i > 0 {
            out.push(',');
        }
        push_decimal(out, bs[i] as u128);
        proof {
            let pre = bs@.subrange(0, i as int);
            let next = bs@.subrange(0, i + 1);
            assert(next.drop_last() =~= pre);
            assert(next.last() == bs@[i as int]);
            if i == 0 {
                assert(byte_list(pre) =~= seq![]);
                assert(out@ =~= old(out)@ + byte_list(next));
            } else {
                assert(out@ =~= old(out)@ + byte_list(next));
            }
        }
        i = i + 1;
    }
    assert(bs@.subrange(0, 8) =~= bs@);
}

/// The JSON text of a claim record, fields in the order `project_name`,
/// `timestamp`, `uid`, with no white space; the project identifier is an array
/// of integers and the timestamp a bare integer.
pub open spec fn claims_json(project: Seq<u8>, timestamp: nat, uid: Seq<char>) -> Seq<char> {
    "{\"project_name\":["@ + byte_list(project) + "],\"timestamp\":"@ + decimal(timestamp)
        + ",\"uid\":\""@ + uid + "\"}"@
}

fn digit_to_char(d: u8) -> (r: char)
    requires
        d < 10,
    ensures
        r == digit_char(d as nat),
{
    (48u8 + d) as char
}

/// Appends the decimal text of `n`.
fn push_decimal(out: &mut String, n: u128)
    ensures
        final(out)@ == old(out)@ + decimal(n as nat),
    decreases n,
{
    if n >= 10 {
        push_decimal(out, n / 10);
    }
    let d = (n % 10) as u8;
    out.push(digit_to_char(d));
    proof {
        assert(final(out)@ =~= old(out)@ + decimal(n as nat));
    }
}

} // verus!
