use vstd::prelude::*;
use vstd::string::StringSliceAdditionalSpecFns;

verus! {

#[derive(Debug, Copy, Clone, PartialEq, Eq, Structural)]
pub enum Theme {
    Light,
    Dark,
}

/// Whether the bytes `b` end with `suffix`.
pub open spec fn ends_with(b: Seq<u8>, suffix: Seq<u8>) -> bool {
    suffix.len() <= b.len() && b.subrange(b.len() - suffix.len(), b.len() as int) == suffix
}

/// `-dark`
pub open spec fn suffix_dark() -> Seq<u8> {
    seq![45u8, 100u8, 97u8, 114u8, 107u8]
}

/// `-Dark`
pub open spec fn suffix_dark_capital() -> Seq<u8> {
    seq![45u8, 68u8, 97u8, 114u8, 107u8]
}

/// `-Darker`
pub open spec fn suffix_darker() -> Seq<u8> {
    seq![45u8, 68u8, 97u8, 114u8, 107u8, 101u8, 114u8]
}

/// The length of the ending that marks a GTK theme name as a dark variant,
/// trying `-dark`, `-Dark` and `-Darker` in that order.
pub open spec fn dark_suffix_len(b: Seq<u8>) -> Option<usize> {
    if ends_with(b, suffix_dark()) {
        Some(5)
    } else if ends_with(b, suffix_dark_capital()) {
        Some(5)
    } else if ends_with(b, suffix_darker()) {
        Some(7)
    } else {
        None
    }
}

fn ends_with_bytes(b: &[u8], suffix: &[u8]) -> (r: bool)
    ensures
        r == ends_with(b@, suffix@),
{
    if suffix.len() > b.len() {
        return false;
    }
    let start = b.len() - suffix.len();
    let mut i: usize = 0;
    while i < suffix.len()
        invariant
            start + suffix@.len() == b@.len(),
            b@.len() <= usize::MAX,
            0 <= i <= suffix@.len(),
            forall|j: int| 0 <= j < i ==> b@[start + j] == suffix@[j],
        decreases suffix.len() - i,
    {
        if b[start + i] != suffix[i] {
            assert(b@.subrange(start as int, b@.len() as int)[i as int] != suffix@[i as int]);
            return false;
        }
        i = i + 1;
    }
    assert(b@.subrange(start as int, b@.len() as int) =~= suffix@);
    true
}

/// How many trailing bytes of a GTK theme name mark it as a dark variant;
/// `None` for a light theme. The name without them is its light variant.
pub fn dark_suffix(name: &str) -> (r: Option<usize>)
    ensures
        r == dark_suffix_len(name.spec_bytes()),
{
    let b = name.as_bytes();
    let dark: [u8; 5] = [45, 100, 97, 114, 107];
    let dark_capital: [u8; 5] = [45, 68, 97, 114, 107];
    let darker: [u8; 7] = [45, 68, 97, 114, 107, 101, 114];
    assert(dark@ =~= suffix_dark());
    assert(dark_capital@ =~= suffix_dark_capital());
    assert(darker@ =~= suffix_darker());
    if ends_with_bytes(b, dark.as_slice()) {
        Some(5)
    } else if ends_with_bytes(b, dark_capital.as_slice()) {
        Some(5)
    } else if ends_with_bytes(b, darker.as_slice()) {
        Some(7)
    } else {
        None
    }
}

/// The theme of the GTK theme in use: dark when its name ends with a dark
/// marker, light otherwise or when no name is set.
pub fn theme_of(name: Option<&str>) -> (r: Theme)
    ensures
        r == (match name {
            Some(n) => if dark_suffix_len(n.spec_bytes()) is Some {
                Theme::Dark
            } else {
                Theme::Light
            },
            None => Theme::Light,
        }),
{
    match name {
        Some(n) => match dark_suffix(n) {
            Some(_) => Theme::Dark,
            None => Theme::Light,
        },
        None => Theme::Light,
    }
}

} // verus!
