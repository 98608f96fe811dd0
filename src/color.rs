use vstd::prelude::*;
use vstd::string::StrSliceExecFns;

verus! {

/// An sRGB colour, eight bits per channel.
#[derive(Clone, Copy, Debug, PartialEq, Eq, Structural)]
pub struct Rgb {
    pub r: u8,
    pub g: u8,
    pub b: u8,
}

/// Why a colour string was refused.
#[derive(Clone, Copy, Debug, PartialEq, Eq, Structural)]
pub enum HexColorError {
    /// Not six characters once the leading `#`s are gone.
    Length,
    /// Six characters, not all of them hex digits.
    Digit,
}

/// The text with its leading `#`s removed.
pub open spec fn strip_hashes(s: Seq<char>) -> Seq<char>
    decreases s.len(),
{
    if s.len() > 0 && s[0] == '#' {
        strip_hashes(s.drop_first())
    } else {
        s
    }
}

pub open spec fn is_hex_digit(c: char) -> bool {
    ||| '0' <= c <= '9'
    ||| 'a' <= c <= 'f'
    ||| 'A' <= c <= 'F'
}

pub open spec fn hex_value(c: char) -> int {
    if '0' <= c <= '9' {
        c as int - '0' as int
    } else if 'a' <= c <= 'f' {
        c as int - 'a' as int + 10
    } else {
        c as int - 'A' as int + 10
    }
}

/// Six hex digits.
pub open spec fn is_hex_color(d: Seq<char>) -> bool {
    d.len() == 6 && forall|i: int| 0 <= i < 6 ==> is_hex_digit(#[trigger] d[i])
}

/// The byte that digits `2i` and `2i + 1` spell, high digit first.
pub open spec fn byte_at(d: Seq<char>, i: int) -> int {
    16 * hex_value(d[2 * i]) + hex_value(d[2 * i + 1])
}

/// The colour that six hex digits spell: red, green, blue, two digits each.
pub open spec fn rgb_of(d: Seq<char>) -> Rgb {
    Rgb { r: byte_at(d, 0) as u8, g: byte_at(d, 1) as u8, b: byte_at(d, 2) as u8 }
}

proof fn lemma_strip_hashes(s: Seq<char>, k: int)
    requires
        0 <= k <= s.len(),
        forall|j: int| 0 <= j < k ==> s[j] == '#',
        k == s.len() || s[k] != '#',
    ensures
        strip_hashes(s) == s.subrange(k, s.len() as int),
    decreases k,
{
    if k == 0 {
        assert(s.subrange(0, s.len() as int) =~= s);
    } else {
        let t = s.drop_first();
        assert forall|j: int| 0 <= j < k - 1 implies t[j] == '#' by {
            assert(t[j] == s[j + 1]);
        }
        if k < s.len() {
            assert(t[k - 1] == s[k]);
        }
        lemma_strip_hashes(t, k - 1);
        assert(t.subrange(k - 1, t.len() as int) =~= s.subrange(k, s.len() as int));
    }
}

fn hex_digit(c: char) -> (r: Option<u8>)
    ensures
        r is Some <==> is_hex_digit(c),
        r matches Some(v) ==> v as int == hex_value(c) && v < 16,
{
    if '0' <= c && c <= '9' {
        Some(((c as u32) - ('0' as u32)) as u8)
    } else if 'a' <= c && c <= 'f' {
        Some(((c as u32) - ('a' as u32) + 10) as u8)
    } else if 'A' <= c && c <= 'F' {
        Some(((c as u32) - ('A' as u32) + 10) as u8)
    } else {
        None
    }
}

/// Reads a colour written as six hex digits (`RRGGBB`, either case), after
/// any leading `#`s.
pub fn hex_to_rgb(hex: &str) -> (r: Result<Rgb, HexColorError>)
    ensures
        strip_hashes(hex@).len() != 6 ==> r == Err::<Rgb, HexColorError>(HexColorError::Length),
        strip_hashes(hex@).len() == 6 && !is_hex_color(strip_hashes(hex@)) ==> r == Err::<
            Rgb,
            HexColorError,
        >(HexColorError::Digit),
        is_hex_color(strip_hashes(hex@)) ==> r == Ok::<Rgb, HexColorError>(
            rgb_of(strip_hashes(hex@)),
        ),
{
    let n = hex.unicode_len();
    let mut k: usize = 0;
    while k < n && hex.get_char(k) == '#'
        invariant
            n == hex@.len(),
            k <= n,
            forall|j: int| 0 <= j < k ==> hex@[j] == '#',
        decreases n - k,
    {
        k = k + 1;
    }
    proof {
        lemma_strip_hashes(hex@, k as int);
    }
    let ghost d = strip_hashes(hex@);
    if n - k != 6 {
        return Err(HexColorError::Length);
    }
    let mut values: Vec<u8> = Vec::new();
    let mut i: usize = 0;
    while i < 6
        invariant
            n == hex@.len(),
            k + 6 == n,
            d == hex@.subrange(k as int, n as int),
            d.len() == 6,
            d == strip_hashes(hex@),
            i <= 6,
            values@.len() == i,
            forall|j: int| 0 <= j < i ==> is_hex_digit(#[trigger] d[j]),
            forall|j: int| 0 <= j < i ==> values@[j] as int == hex_value(#[trigger] d[j]),
            forall|j: int| 0 <= j < i ==> #[trigger] values@[j] < 16,
        decreases 6 - i,
    {
        let c = hex.get_char(k + i);
        assert(c == d[i as int]);
        match hex_digit(c) {
            Some(v) => values.push(v),
            None => {
                assert(!is_hex_digit(d[i as int]));
                return Err(HexColorError::Digit);
            },
        }
        i = i + 1;
    }
    assert(is_hex_color(d));
    let r = values[0] * 16 + values[1];
    let g = values[2] * 16 + values[3];
    let b = values[4] * 16 + values[5];
    Ok(Rgb { r, g, b })
}

} // verus!
