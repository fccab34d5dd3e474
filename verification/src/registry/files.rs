//! Which files of a resource directory hold entries, and under which ids.
use vstd::prelude::*;
use vstd::string::*;

verus! {

/// The byte with ASCII letters `A`..`Z` taken to lower case.
pub open spec fn ascii_lower(b: u8) -> u8 {
    if 65 <= b && b <= 90 {
        (b + 32) as u8
    } else {
        b
    }
}

/// The byte string with every ASCII letter taken to lower case.
pub open spec fn ascii_lowercase(s: Seq<u8>) -> Seq<u8> {
    s.map_values(|b: u8| ascii_lower(b))
}

/// The two byte strings are equal when ASCII letters are compared without
/// regard to case.
pub open spec fn eq_ignore_ascii_case(a: Seq<u8>, b: Seq<u8>) -> bool {
    &&& a.len() == b.len()
    &&& forall|i: int| 0 <= i < a.len() ==> ascii_lower(#[trigger] a[i]) == ascii_lower(b[i])
}

/// Compares two byte strings, ASCII letters without regard to case.
pub fn bytes_eq_ignore_ascii_case(a: &[u8], b: &[u8]) -> (r: bool)
    ensures
        r == eq_ignore_ascii_case(a@, b@),
        r == (ascii_lowercase(a@) == ascii_lowercase(b@)),
        r ==> a@.len() == b@.len(),
{
    proof {
        law_eq_ignore_ascii_case_is_lowercase_equality(a@, b@);
    }
    if a.len() != b.len() {
        return false;
    }
    let n = a.len();
    for i in 0..n
        invariant
            n == a@.len(),
            n == b@.len(),
            eq_ignore_ascii_case(a@, b@) == (ascii_lowercase(a@) == ascii_lowercase(b@)),
            forall|j: int| 0 <= j < i ==> ascii_lower(#[trigger] a@[j]) == ascii_lower(b@[j]),
    {
        let x = a[i];
        let y = b[i];
        let lx = if 65 <= x && x <= 90 { x + 32 } else { x };
        let ly = if 65 <= y && y <= 90 { y + 32 } else { y };
        if lx != ly {
            return false;
        }
    }
    true
}

/// The id a directory entry is read under, from what the file system says
/// of it: a regular file, whose extension (if it has one) is the expected one
/// up to ASCII case, and whose name without extension is valid UTF-8 and does
/// not start with a dot.
pub open spec fn spec_file_resource_id(
    is_file: bool,
    extension: Option<Seq<u8>>,
    stem: Option<Seq<char>>,
    expected_extension: Seq<u8>,
) -> Option<Seq<char>> {
    if !is_file {
        None
    } else if extension matches Some(e) && !eq_ignore_ascii_case(e, expected_extension) {
        None
    } else {
        match stem {
            None => None,
            Some(s) => if s.len() > 0 && s[0] == '.' {
                None
            } else {
                Some(s)
            },
        }
    }
}

/// The id a directory entry is read under, if it is read at all.
///
/// `extension` is the file's extension as bytes, `None` when it has none;
/// `stem` is its name without extension, `None` when it has none or it is not
/// valid UTF-8.
pub fn file_resource_id<'a>(
    is_file: bool,
    extension: Option<&[u8]>,
    stem: Option<&'a str>,
    expected_extension: &str,
) -> (r: Option<&'a str>)
    ensures
        (match r {
            Some(s) => Some(s@),
            None => None,
        }) == spec_file_resource_id(
            is_file,
            (match extension {
                Some(e) => Some(e@),
                None => None,
            }),
            (match stem {
                Some(s) => Some(s@),
                None => None,
            }),
            expected_extension.spec_bytes(),
        ),
        r matches Some(s) ==> stem == Some(s),
        !is_file ==> r is None,
        stem is None ==> r is None,
        extension matches Some(e) && e@.len() != expected_extension.spec_bytes().len() ==> r is None,
        r matches Some(s) ==> is_file && !(s@.len() > 0 && s@[0] == '.'),
        r matches Some(s) ==> (extension matches Some(e) ==> ascii_lowercase(e@) == ascii_lowercase(
            expected_extension.spec_bytes(),
        )),
        is_file && extension is None && (stem matches Some(s) && !(s@.len() > 0 && s@[0] == '.')) ==> r == stem,
{
    proof {
        let ext = match extension {
            Some(e) => Some(e@),
            None => None,
        };
        let st = match stem {
            Some(s) => Some(s@),
            None => None,
        };
        law_only_regular_files_are_read(ext, st, expected_extension.spec_bytes());
        law_unnamed_files_are_not_read(is_file, ext, expected_extension.spec_bytes());
        law_read_ids_are_stems_of_regular_files(is_file, ext, st, expected_extension.spec_bytes());
        if extension matches Some(e) && e@.len() != expected_extension.spec_bytes().len() {
            let e = extension->0;
            law_extension_of_another_length_is_not_read(is_file, e@, st, expected_extension.spec_bytes());
        }
    }
    if !is_file {
        return None;
    }
    if let Some(ext) = extension {
        if !bytes_eq_ignore_ascii_case(ext, expected_extension.as_bytes()) {
            return None;
        }
    }
    let file_name = match stem {
        Some(s) => s,
        None => return None,
    };
    if !file_name.is_empty() && file_name.get_char(0) == '.' {
        return None;
    }
    Some(file_name)
}

/// Comparing without regard to ASCII case is comparing the lowercased
/// strings: equal length, and equal bytes once ASCII letters are lowered.
pub proof fn law_eq_ignore_ascii_case_is_lowercase_equality(a: Seq<u8>, b: Seq<u8>)
    ensures
        eq_ignore_ascii_case(a, b) <==> ascii_lowercase(a) == ascii_lowercase(b),
        eq_ignore_ascii_case(a, b) ==> a.len() == b.len(),
{
    let (la, lb) = (ascii_lowercase(a), ascii_lowercase(b));
    assert(la.len() == a.len() && lb.len() == b.len());
    assert forall|i: int| 0 <= i < a.len() implies #[trigger] la[i] == ascii_lower(a[i]) by {}
    assert forall|i: int| 0 <= i < b.len() implies #[trigger] lb[i] == ascii_lower(b[i]) by {}
    if eq_ignore_ascii_case(a, b) {
        assert(la =~= lb);
    }
    if la == lb {
        assert forall|i: int| 0 <= i < a.len() implies ascii_lower(#[trigger] a[i]) == ascii_lower(b[i]) by {
            assert(la[i] == lb[i]);
        }
    }
}

/// Comparison without regard to ASCII case is an equivalence: every string
/// matches itself, the order of the two strings does not matter, and
/// matches chain.
pub proof fn law_eq_ignore_ascii_case_is_equivalence(a: Seq<u8>, b: Seq<u8>, c: Seq<u8>)
    ensures
        eq_ignore_ascii_case(a, a),
        eq_ignore_ascii_case(a, b) == eq_ignore_ascii_case(b, a),
        eq_ignore_ascii_case(a, b) && eq_ignore_ascii_case(b, c) ==> eq_ignore_ascii_case(a, c),
{
    law_eq_ignore_ascii_case_is_lowercase_equality(a, a);
    law_eq_ignore_ascii_case_is_lowercase_equality(a, b);
    law_eq_ignore_ascii_case_is_lowercase_equality(b, a);
    law_eq_ignore_ascii_case_is_lowercase_equality(b, c);
    law_eq_ignore_ascii_case_is_lowercase_equality(a, c);
}

/// A string and the same string with its ASCII letters lowered match.
pub proof fn law_eq_ignore_ascii_case_ignores_case(a: Seq<u8>)
    ensures
        eq_ignore_ascii_case(a, ascii_lowercase(a)),
{
    assert forall|i: int| 0 <= i < a.len() implies ascii_lower(#[trigger] a[i]) == ascii_lower(
        ascii_lowercase(a)[i],
    ) by {
        assert(ascii_lowercase(a)[i] == ascii_lower(a[i]));
    }
}

/// Strings of different lengths never match, whatever their bytes.
pub proof fn law_eq_ignore_ascii_case_needs_equal_length(a: Seq<u8>, b: Seq<u8>)
    requires
        a.len() != b.len(),
    ensures
        !eq_ignore_ascii_case(a, b),
{
}

/// Whatever its name and extension, an entry that is not a regular file is
/// never read as a resource.
pub proof fn law_only_regular_files_are_read(
    extension: Option<Seq<u8>>,
    stem: Option<Seq<char>>,
    expected_extension: Seq<u8>,
)
    ensures
        spec_file_resource_id(false, extension, stem, expected_extension) is None,
{
}

/// A file with no usable name is never read.
pub proof fn law_unnamed_files_are_not_read(is_file: bool, extension: Option<Seq<u8>>, expected_extension: Seq<u8>)
    ensures
        spec_file_resource_id(is_file, extension, None, expected_extension) is None,
{
}

/// A file whose extension differs in length from the expected one (such as
/// a backup `ron~` next to `ron`) is never read.
pub proof fn law_extension_of_another_length_is_not_read(
    is_file: bool,
    extension: Seq<u8>,
    stem: Option<Seq<char>>,
    expected_extension: Seq<u8>,
)
    requires
        extension.len() != expected_extension.len(),
    ensures
        spec_file_resource_id(is_file, Some(extension), stem, expected_extension) is None,
{
}

/// An entry that is read is a regular file, read under its stem, which does
/// not start with a dot; its extension, if any, lowers to the expected one.
/// A regular file without extension and with such a stem is read under it,
/// and so is one whose extension differs from the expected one only in the
/// case of ASCII letters.
pub proof fn law_read_ids_are_stems_of_regular_files(
    is_file: bool,
    extension: Option<Seq<u8>>,
    stem: Option<Seq<char>>,
    expected_extension: Seq<u8>,
)
    ensures
        spec_file_resource_id(is_file, extension, stem, expected_extension) matches Some(id) ==> {
            &&& is_file
            &&& stem == Some(id)
            &&& !(id.len() > 0 && id[0] == '.')
            &&& (extension matches Some(e) ==> ascii_lowercase(e) == ascii_lowercase(expected_extension))
        },
        is_file && (stem matches Some(s) && !(s.len() > 0 && s[0] == '.')) && (extension is None || (
        extension matches Some(e) && ascii_lowercase(e) == ascii_lowercase(expected_extension)))
            ==> spec_file_resource_id(is_file, extension, stem, expected_extension) == stem,
{
    if let Some(e) = extension {
        law_eq_ignore_ascii_case_is_lowercase_equality(e, expected_extension);
    }
}

} // verus!
