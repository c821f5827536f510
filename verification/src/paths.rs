//! Paths as text: their order and their file extension.
//!
//! A path is a string. Paths are ordered by their UTF-8 bytes, which orders
//! the entries of one directory by file name. The extension of a path is
//! what follows the last dot of its last component. Which characters
//! separate components depends on the platform; the functions that need to
//! know take the answer as `PathRules`.

use vstd::prelude::*;

verus! {

/// Lexicographic order on byte strings: `a` comes strictly before `b`.
pub open spec fn spec_bytes_lt(a: Seq<u8>, b: Seq<u8>) -> bool
    decreases a.len(),
{
    if b.len() == 0 {
        false
    } else if a.len() == 0 {
        true
    } else if a[0] != b[0] {
        a[0] < b[0]
    } else {
        spec_bytes_lt(a.drop_first(), b.drop_first())
    }
}

/// Order on paths: by their UTF-8 bytes.
pub open spec fn spec_path_lt(a: Seq<char>, b: Seq<char>) -> bool {
    spec_bytes_lt(vstd::utf8::encode_utf8(a), vstd::utf8::encode_utf8(b))
}

/// The byte order is transitive.
pub proof fn bytes_lt_transitive(a: Seq<u8>, b: Seq<u8>, c: Seq<u8>)
    requires
        spec_bytes_lt(a, b),
        spec_bytes_lt(b, c),
    ensures
        spec_bytes_lt(a, c),
    decreases a.len(),
{
    if a.len() > 0 && a[0] == b[0] && b[0] == c[0] {
        bytes_lt_transitive(a.drop_first(), b.drop_first(), c.drop_first());
    }
}

/// No byte string comes before itself.
pub proof fn bytes_lt_irreflexive(a: Seq<u8>)
    ensures
        !spec_bytes_lt(a, a),
    decreases a.len(),
{
    if a.len() > 0 {
        bytes_lt_irreflexive(a.drop_first());
    }
}

/// Two byte strings of which neither comes before the other are equal.
pub proof fn bytes_lt_total(a: Seq<u8>, b: Seq<u8>)
    requires
        !spec_bytes_lt(a, b),
        !spec_bytes_lt(b, a),
    ensures
        a == b,
    decreases a.len(),
{
    if a.len() > 0 && b.len() > 0 {
        bytes_lt_total(a.drop_first(), b.drop_first());
        assert(a =~= seq![a[0]] + a.drop_first());
        assert(b =~= seq![b[0]] + b.drop_first());
    } else {
        assert(a =~= b);
    }
}

/// The order on paths is a strict total order: it is transitive, no path
/// comes before itself, and of two different paths one comes first.
pub proof fn path_lt_is_total_order(a: Seq<char>, b: Seq<char>, c: Seq<char>)
    ensures
        spec_path_lt(a, b) && spec_path_lt(b, c) ==> spec_path_lt(a, c),
        !spec_path_lt(a, a),
        !spec_path_lt(a, b) && !spec_path_lt(b, a) ==> a == b,
{
    if spec_path_lt(a, b) && spec_path_lt(b, c) {
        bytes_lt_transitive(
            vstd::utf8::encode_utf8(a),
            vstd::utf8::encode_utf8(b),
            vstd::utf8::encode_utf8(c),
        );
    }
    bytes_lt_irreflexive(vstd::utf8::encode_utf8(a));
    if !spec_path_lt(a, b) && !spec_path_lt(b, a) {
        bytes_lt_total(vstd::utf8::encode_utf8(a), vstd::utf8::encode_utf8(b));
        vstd::utf8::encode_utf8_decode_utf8(a);
        vstd::utf8::encode_utf8_decode_utf8(b);
    }
}

/// Whether `a` comes strictly before `b` in byte order.
pub fn bytes_lt(a: &[u8], b: &[u8]) -> (before: bool)
    ensures
        before == spec_bytes_lt(a@, b@),
{
    let mut i: usize = 0;
    proof {
        assert(a@.skip(0) =~= a@);
        assert(b@.skip(0) =~= b@);
    }
    while i < a.len() && i < b.len()
        invariant
            i <= a.len(),
            i <= b.len(),
            spec_bytes_lt(a@, b@) == spec_bytes_lt(a@.skip(i as int), b@.skip(i as int)),
        decreases a.len() - i,
    {
        if a[i] != b[i] {
            return a[i] < b[i];
        }
        proof {
            assert(a@.skip(i as int).drop_first() =~= a@.skip(i + 1));
            assert(b@.skip(i as int).drop_first() =~= b@.skip(i + 1));
        }
        i = i + 1;
    }
    i < b.len()
}

/// Whether path `a` comes strictly before path `b`.
pub fn path_lt(a: &str, b: &str) -> (before: bool)
    ensures
        before == spec_path_lt(a@, b@),
{
    bytes_lt(a.as_bytes(), b.as_bytes())
}

/// Whether two strings hold the same text.
pub fn str_eq(a: &str, b: &str) -> (same: bool)
    ensures
        same == (a@ == b@),
{
    let left = a.as_bytes();
    let right = b.as_bytes();
    proof {
        vstd::utf8::encode_utf8_decode_utf8(a@);
        vstd::utf8::encode_utf8_decode_utf8(b@);
    }
    if left.len() != right.len() {
        return false;
    }
    let mut i: usize = 0;
    while i < left.len()
        invariant
            i <= left.len(),
            left.len() == right.len(),
            left@.take(i as int) == right@.take(i as int),
            left@ == vstd::utf8::encode_utf8(a@),
            right@ == vstd::utf8::encode_utf8(b@),
            vstd::utf8::decode_utf8(left@) == a@,
            vstd::utf8::decode_utf8(right@) == b@,
        decreases left.len() - i,
    {
        if left[i] != right[i] {
            assert(left@[i as int] != right@[i as int]);
            return false;
        }
        proof {
            assert(left@.take(i + 1) =~= left@.take(i as int).push(left@[i as int]));
            assert(right@.take(i + 1) =~= right@.take(i as int).push(right@[i as int]));
        }
        i = i + 1;
    }
    proof {
        assert(left@.take(i as int) =~= left@);
        assert(right@.take(i as int) =~= right@);
    }
    true
}

/// Which characters separate the components of a path. That depends on the
/// platform: most take `/`, some take `\` as well or instead.
#[derive(Clone, Copy, Debug, PartialEq, Eq, Structural)]
pub struct PathRules {
    /// Whether `/` separates components.
    pub slash: bool,
    /// Whether `\` separates components.
    pub backslash: bool,
}

/// Calls `std::path::is_separator`, which says whether a character
/// separates the components of a path on the platform that the program runs
/// on. Nothing is claimed about its answer.
#[verifier::external_body]
fn std_is_separator(c: char) -> (separates: bool) {
    std::path::is_separator(c)
}

impl PathRules {
    /// The rules of the platform that the program runs on.
    pub fn native() -> (rules: PathRules) {
        PathRules { slash: std_is_separator('/'), backslash: std_is_separator('\\') }
    }
}

/// Whether a byte separates the components of a path under the given rules.
pub open spec fn spec_is_separator(byte: u8, rules: PathRules) -> bool {
    (rules.slash && byte == 0x2F) || (rules.backslash && byte == 0x5C)
}

/// Where the last component of a path ends, looking at its first `end`
/// bytes: separators at the end are passed over, and so is a component that
/// is a single dot and follows a separator. Zero if nothing is left.
pub open spec fn spec_name_end(path: Seq<u8>, rules: PathRules, end: int) -> int
    decreases end,
{
    if end <= 0 {
        0
    } else if spec_is_separator(path[end - 1], rules) {
        spec_name_end(path, rules, end - 1)
    } else if path[end - 1] == 0x2E && end >= 2 && spec_is_separator(path[end - 2], rules) {
        spec_name_end(path, rules, end - 2)
    } else {
        end
    }
}

/// Where the component that ends at `end` starts: just after the last
/// separator before `end`, or at the start of the path.
pub open spec fn spec_name_start(path: Seq<u8>, rules: PathRules, end: int) -> int
    decreases end,
{
    if end <= 0 {
        0
    } else if spec_is_separator(path[end - 1], rules) {
        end
    } else {
        spec_name_start(path, rules, end - 1)
    }
}

/// Position of the last dot of the name that runs from `start` to `end`,
/// not counting a dot that is its first character.
pub open spec fn spec_last_dot(path: Seq<u8>, start: int, end: int) -> Option<int>
    decreases end,
{
    if end <= 0 || end - 1 <= start {
        None
    } else if path[end - 1] == 0x2E {
        Some(end - 1)
    } else {
        spec_last_dot(path, start, end - 1)
    }
}

/// Where the extension of a path lies: from just after the last dot of its
/// last component to the end of that component. There is none if the path
/// has no component, if the component has no dot, or if its only dot is its
/// first character.
pub open spec fn spec_extension_range(path: Seq<u8>, rules: PathRules) -> Option<(int, int)> {
    let end = spec_name_end(path, rules, path.len() as int);
    let start = spec_name_start(path, rules, end);
    match spec_last_dot(path, start, end) {
        Some(dot) => Some((dot + 1, end)),
        None => None,
    }
}

/// The extension of a path: what follows the last dot of its last
/// component.
pub open spec fn spec_extension(path: Seq<u8>, rules: PathRules) -> Option<Seq<u8>> {
    match spec_extension_range(path, rules) {
        Some(range) => Some(path.subrange(range.0, range.1)),
        None => None,
    }
}

/// An ASCII capital letter as its small letter; any other byte as it is.
pub open spec fn spec_lower(byte: u8) -> u8 {
    if 0x41 <= byte <= 0x5A {
        (byte + 32) as u8
    } else {
        byte
    }
}

/// The image formats that the browser shows, told apart by extension.
#[derive(Clone, Copy, Debug, PartialEq, Eq, Structural)]
pub enum ImageKind {
    /// Extension `jpg` or `jpeg`.
    Jpeg,
    /// Extension `png`.
    Png,
    /// Extension `webp`.
    WebP,
}

/// The format that the extension of a path stands for, in small or capital
/// letters, if it stands for one.
pub open spec fn spec_image_kind(path: Seq<char>, rules: PathRules) -> Option<ImageKind> {
    match spec_extension(vstd::utf8::encode_utf8(path), rules) {
        Some(found) => {
            let extension = found.map_values(|byte: u8| spec_lower(byte));
            if extension == seq![0x6Au8, 0x70u8, 0x67u8] || extension == seq![
                0x6Au8,
                0x70u8,
                0x65u8,
                0x67u8,
            ] {
                Some(ImageKind::Jpeg)
            } else if extension == seq![0x70u8, 0x6Eu8, 0x67u8] {
                Some(ImageKind::Png)
            } else if extension == seq![0x77u8, 0x65u8, 0x62u8, 0x70u8] {
                Some(ImageKind::WebP)
            } else {
                None
            }
        },
        None => None,
    }
}

/// Whether a path names an image by its extension: `jpg`, `jpeg`, `png` or
/// `webp`, in small or capital letters.
pub open spec fn spec_is_image_file(path: Seq<char>, rules: PathRules) -> bool {
    spec_image_kind(path, rules) is Some
}

/// An ASCII capital letter as its small letter; any other byte as it is.
fn lower(byte: u8) -> (small: u8)
    ensures
        small == spec_lower(byte),
{
    if 0x41 <= byte && byte <= 0x5A {
        byte + 32
    } else {
        byte
    }
}

/// Whether a byte separates the components of a path under the given rules.
pub fn is_separator(byte: u8, rules: PathRules) -> (separates: bool)
    ensures
        separates == spec_is_separator(byte, rules),
{
    (rules.slash && byte == 0x2F) || (rules.backslash && byte == 0x5C)
}

/// The extension of `path`, as the positions of its first byte and of the
/// byte after its last, if the path has one.
pub fn extension_range(path: &[u8], rules: PathRules) -> (range: Option<(usize, usize)>)
    ensures
        match range {
            Some(found) => spec_extension_range(path@, rules) == Some(
                (found.0 as int, found.1 as int),
            ) && found.0 <= found.1 <= path.len(),
            None => spec_extension_range(path@, rules) is None,
        },
{
    let mut end: usize = path.len();
    loop
        invariant
            end <= path.len(),
            spec_name_end(path@, rules, path.len() as int) == spec_name_end(
                path@,
                rules,
                end as int,
            ),
        ensures
            end <= path.len(),
            end == spec_name_end(path@, rules, path.len() as int),
        decreases end,
    {
        if end == 0 {
            break ;
        }
        if is_separator(path[end - 1], rules) {
            end = end - 1;
        } else if path[end - 1] == 0x2E && end >= 2 && is_separator(path[end - 2], rules) {
            end = end - 2;
        } else {
            break ;
        }
    }
    let mut start: usize = end;
    while start > 0 && !is_separator(path[start - 1], rules)
        invariant
            start <= end <= path.len(),
            spec_name_start(path@, rules, end as int) == spec_name_start(
                path@,
                rules,
                start as int,
            ),
        decreases start,
    {
        start = start - 1;
    }
    let mut dot: usize = end;
    while dot - start > 1 && path[dot - 1] != 0x2E
        invariant
            start <= dot <= end <= path.len(),
            spec_last_dot(path@, start as int, end as int) == spec_last_dot(
                path@,
                start as int,
                dot as int,
            ),
        decreases dot,
    {
        dot = dot - 1;
    }
    if dot - start > 1 {
        Some((dot, end))
    } else {
        None
    }
}

/// The image format that the extension of `path` stands for, if any.
pub fn image_kind(path: &str, rules: PathRules) -> (kind: Option<ImageKind>)
    ensures
        kind == spec_image_kind(path@, rules),
{
    let bytes = path.as_bytes();
    match extension_range(bytes, rules) {
        None => None,
        Some((start, end)) => {
            let ghost extension = bytes@.subrange(start as int, end as int).map_values(
                |byte: u8| spec_lower(byte),
            );
            let length: usize = end - start;
            proof {
                assert(extension.len() == length);
            }
            if length == 3 {
                let first: u8 = lower(bytes[start]);
                let second: u8 = lower(bytes[start + 1]);
                let third: u8 = lower(bytes[start + 2]);
                proof {
                    assert(extension[0] == first && extension[1] == second && extension[2]
                        == third);
                    assert(extension =~= seq![first, second, third]);
                }
                if first == 0x6A && second == 0x70 && third == 0x67 {
                    Some(ImageKind::Jpeg)
                } else if first == 0x70 && second == 0x6E && third == 0x67 {
                    Some(ImageKind::Png)
                } else {
                    None
                }
            } else if length == 4 {
                let first: u8 = lower(bytes[start]);
                let second: u8 = lower(bytes[start + 1]);
                let third: u8 = lower(bytes[start + 2]);
                let fourth: u8 = lower(bytes[start + 3]);
                proof {
                    assert(extension[0] == first && extension[1] == second && extension[2]
                        == third && extension[3] == fourth);
                    assert(extension =~= seq![first, second, third, fourth]);
                }
                if first == 0x6A && second == 0x70 && third == 0x65 && fourth == 0x67 {
                    Some(ImageKind::Jpeg)
                } else if first == 0x77 && second == 0x65 && third == 0x62 && fourth == 0x70 {
                    Some(ImageKind::WebP)
                } else {
                    None
                }
            } else {
                None
            }
        },
    }
}

/// Whether `path` names an image file, going by its extension.
pub fn is_image_file(path: &str, rules: PathRules) -> (image: bool)
    ensures
        image == spec_is_image_file(path@, rules),
{
    match image_kind(path, rules) {
        Some(_) => true,
        None => false,
    }
}

} // verus!
