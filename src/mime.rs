use vstd::prelude::*;

verus! {

/// The index of the last `c` in `s`, or -1 when there is none.
pub open spec fn last_index_of(s: Seq<char>, c: char) -> int
    decreases s.len(),
{
    if s.len() == 0 {
        -1
    } else if s.last() == c {
        s.len() - 1
    } else {
        last_index_of(s.drop_last(), c)
    }
}

/// The last component of a `/`-separated path.
pub open spec fn file_name(s: Seq<char>) -> Seq<char> {
    s.subrange(last_index_of(s, '/') + 1, s.len() as int)
}

/// The text after the last `.` of the file name, unless that `.` opens the name.
pub open spec fn extension(s: Seq<char>) -> Option<Seq<char>> {
    let f = file_name(s);
    let d = last_index_of(f, '.');
    if d > 0 {
        Some(f.subrange(d + 1, f.len() as int))
    } else {
        None
    }
}

/// The MIME type that the extension table gives for an extension.
pub uninterp spec fn ext_mime(ext: Seq<char>) -> Seq<char>;

pub open spec fn octet_stream() -> Seq<char> {
    "application/octet-stream"@
}

/// The MIME type of a path, from its extension alone.
pub open spec fn path_mime(s: Seq<char>) -> Seq<char> {
    match extension(s) {
        Some(e) => ext_mime(e),
        None => octet_stream(),
    }
}

/// Relies on `mime_guess::from_ext(..).first_or_octet_stream()`: the first MIME type
/// listed for the extension, or `application/octet-stream`; an empty extension lists
/// nothing.
#[verifier::external_body]
fn mime_from_ext(ext: &str) -> (r: String)
    ensures
        r@ == ext_mime(ext@),
        ext@.len() == 0 ==> r@ == octet_stream(),
{
    mime_guess::from_ext(ext).first_or_octet_stream().to_string()
}

proof fn lemma_last_index_bounds(s: Seq<char>, c: char)
    ensures
        -1 <= last_index_of(s, c) < s.len(),
        last_index_of(s, c) >= 0 ==> s[last_index_of(s, c)] == c,
    decreases s.len(),
{
    if s.len() > 0 && s.last() != c {
        lemma_last_index_bounds(s.drop_last(), c);
    }
}

/// The index of the last `c` in `s`, if any.
fn last_index(s: &str, c: char) -> (r: Option<usize>)
    ensures
        r matches Some(k) ==> k == last_index_of(s@, c),
        r is None ==> last_index_of(s@, c) == -1,
{
    let n = s.unicode_len();
    let mut i: usize = 0;
    let mut last: Option<usize> = None;
    while i < n
        invariant
            n == s@.len(),
            i <= n,
            last matches Some(k) ==> k == last_index_of(s@.subrange(0, i as int), c),
            last is None ==> last_index_of(s@.subrange(0, i as int), c) == -1,
        decreases n - i,
    {
        assert(s@.subrange(0, i + 1).drop_last() =~= s@.subrange(0, i as int));
        if s.get_char(i) == c {
            last = Some(i);
        }
        i = i + 1;
    }
    assert(s@.subrange(0, n as int) =~= s@);
    last
}

/// The MIME type of a path, read from the extension of its last component, never
/// from the content.
pub fn mime_for_path(path: &str) -> (r: String)
    ensures
        r@ == path_mime(path@),
{
    let n = path.unicode_len();
    proof {
        lemma_last_index_bounds(path@, '/');
    }
    let start: usize = match last_index(path, '/') {
        Some(k) => k + 1,
        None => 0,
    };
    let name = path.substring_char(start, n);
    assert(name@ == file_name(path@));
    proof {
        lemma_last_index_bounds(name@, '.');
    }
    match last_index(name, '.') {
        Some(dot) if dot > 0 => {
            let ext = name.substring_char(dot + 1, name.unicode_len());
            mime_from_ext(ext)
        },
        _ => {
            proof {
                reveal_strlit("application/octet-stream");
            }
            String::from_str("application/octet-stream")
        },
    }
}

} // verus!
