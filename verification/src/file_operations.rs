//! File-path classification and `file://` URL construction.
//!
//! A path string given on the command line is classified as exactly one of:
//! a Unix absolute path, a Windows absolute path (drive letter or UNC), a
//! relative path with separators, or a bare filename.  The classification
//! drives where the generated report is written, and a path can also be
//! turned into a `file://` URL for the browser.
//!
//! The component counting follows what a Unix path parser reports: maximal
//! runs of non-`/` characters form segments; empty segments are ignored, a
//! `.` segment is ignored except at the very start.

use vstd::prelude::*;

verus! {

/// Which of the four path shapes a string falls under; exactly one of the
/// flags is set by [`get_file_path_config`].
#[derive(Debug)]
pub struct FilePathConfig {
    pub unix_absolute_path: bool,
    pub windows_absolute_path: bool,
    pub relative_path_with_separators: bool,
    pub bare_filename: bool,
}

impl FilePathConfig {
    /// How many of the four flags are set.
    pub open spec fn flag_count(&self) -> int {
        (if self.unix_absolute_path {
            1int
        } else {
            0int
        }) + (if self.windows_absolute_path {
            1int
        } else {
            0int
        }) + (if self.relative_path_with_separators {
            1int
        } else {
            0int
        }) + (if self.bare_filename {
            1int
        } else {
            0int
        })
    }

    /// A classification is well formed when it names exactly one shape.
    pub open spec fn wf(&self) -> bool {
        self.flag_count() == 1
    }
}

/// `c` is an ASCII letter (`a`..`z` or `A`..`Z`).
pub open spec fn is_ascii_alpha(c: char) -> bool {
    (97 <= c as u32 && c as u32 <= 122) || (65 <= c as u32 && c as u32 <= 90)
}

/// The path starts with `/`.
pub open spec fn is_unix_absolute(s: Seq<char>) -> bool {
    s.len() > 0 && s[0] == '/'
}

/// The path starts with a drive letter, e.g. `C:\` or `C:/`.
pub open spec fn has_drive_prefix(s: Seq<char>) -> bool {
    s.len() >= 3 && is_ascii_alpha(s[0]) && s[1] == ':' && (s[2] == '\\' || s[2] == '/')
}

/// The path starts with `\\`, the UNC form `\\server\mount\...`.
pub open spec fn has_unc_start(s: Seq<char>) -> bool {
    s.len() >= 2 && s[0] == '\\' && s[1] == '\\'
}

/// The path is absolute in the Windows sense: drive letter or UNC prefix.
pub open spec fn is_windows_absolute(s: Seq<char>) -> bool {
    has_drive_prefix(s) || has_unc_start(s)
}

/// The segments of `s` between `/` separators, in order.  Splitting never
/// drops anything: a leading, trailing or doubled `/` contributes an empty
/// segment.
pub open spec fn split_on_slash(s: Seq<char>) -> Seq<Seq<char>>
    decreases s.len(),
{
    if s.len() == 0 {
        seq![Seq::<char>::empty()]
    } else if s.last() == '/' {
        split_on_slash(s.drop_last()).push(Seq::<char>::empty())
    } else {
        let segs = split_on_slash(s.drop_last());
        segs.update(segs.len() - 1, segs.last().push(s.last()))
    }
}

/// A segment counts as a path component if it is non-empty and is not the
/// no-op `.`; a leading `.` does count (as the current directory).
pub open spec fn counts_as_component(is_first: bool, seg: Seq<char>) -> bool {
    if is_first {
        seg.len() > 0
    } else {
        seg.len() > 0 && seg != seq!['.']
    }
}

/// How many segments of `segs` count as components, where only the segment
/// at index 0 is treated as leading.
pub open spec fn counted_components(segs: Seq<Seq<char>>) -> nat
    decreases segs.len(),
{
    if segs.len() == 0 {
        0
    } else {
        counted_components(segs.drop_last()) + if counts_as_component(
            segs.len() == 1,
            segs.last(),
        ) {
            1nat
        } else {
            0nat
        }
    }
}

/// The number of path components of `s`, as a Unix path parser reports it.
pub open spec fn component_count(s: Seq<char>) -> nat {
    counted_components(split_on_slash(s))
}

/// The path is relative but nested, e.g. `files/config.toml`.
pub open spec fn has_multiple_components(s: Seq<char>) -> bool {
    component_count(s) > 1
}

/// Splitting any string yields at least one segment.
proof fn lemma_split_nonempty(s: Seq<char>)
    ensures
        split_on_slash(s).len() >= 1,
    decreases s.len(),
{
    if s.len() > 0 {
        lemma_split_nonempty(s.drop_last());
    }
}

/// `c` is an ASCII letter.
fn ascii_alpha(c: char) -> (r: bool)
    ensures
        r == is_ascii_alpha(c),
{
    let u = c as u32;
    (97 <= u && u <= 122) || (65 <= u && u <= 90)
}

/// Counts the path components of `s` in one pass over its characters.
fn count_path_components(s: &str) -> (count: usize)
    ensures
        count == component_count(s@),
{
    let n = s.unicode_len();
    let mut count: usize = 0;
    let mut run_len: usize = 0;
    let mut run_is_dot = false;
    let mut first_run = true;
    let mut i: usize = 0;
    proof {
        assert(s@.subrange(0, 0) =~= Seq::<char>::empty());
    }
    while i < n
        invariant
            i <= n,
            n == s@.len(),
            count + run_len <= i,
            split_on_slash(s@.subrange(0, i as int)).len() >= 1,
            run_len == split_on_slash(s@.subrange(0, i as int)).last().len(),
            run_is_dot == (split_on_slash(s@.subrange(0, i as int)).last() == seq!['.']),
            first_run == (split_on_slash(s@.subrange(0, i as int)).len() == 1),
            count == counted_components(split_on_slash(s@.subrange(0, i as int)).drop_last()),
        decreases n - i,
    {
        let c = s.get_char(i);
        let ghost prefix = s@.subrange(0, i as int);
        let ghost extended = s@.subrange(0, i as int + 1);
        proof {
            assert(extended.drop_last() =~= prefix);
            assert(extended.last() == c);
            lemma_split_nonempty(prefix);
        }
        if c == '/' {
            if run_len > 0 && (first_run || !run_is_dot) {
                count = count + 1;
            }
            proof {
                assert(split_on_slash(extended) =~= split_on_slash(prefix).push(
                    Seq::<char>::empty(),
                ));
                assert(split_on_slash(extended).drop_last() =~= split_on_slash(prefix));
                assert(seq!['.'].len() == 1);
                assert(Seq::<char>::empty() != seq!['.']);
            }
            run_len = 0;
            run_is_dot = false;
            first_run = false;
        } else {
            run_len = run_len + 1;
            run_is_dot = run_len == 1 && c == '.';
            proof {
                let segs = split_on_slash(prefix);
                let updated = segs.last().push(c);
                assert(split_on_slash(extended) == segs.update(segs.len() - 1, updated));
                assert(split_on_slash(extended).last() == updated);
                assert(split_on_slash(extended).drop_last() =~= segs.drop_last());
                if segs.last().len() == 0 && c == '.' {
                    assert(updated =~= seq!['.']);
                } else {
                    if updated == seq!['.'] {
                        assert(updated.len() == 1);
                        assert(updated[0] == '.');
                        assert(updated[updated.len() - 1] == segs.last().last() || updated[0]
                            == c);
                        assert(segs.last().len() == 0);
                        assert(c == '.');
                    }
                    assert(updated != seq!['.']);
                }
            }
        }
        i = i + 1;
    }
    proof {
        assert(s@.subrange(0, n as int) =~= s@);
    }
    if run_len > 0 && (first_run || !run_is_dot) {
        count = count + 1;
    }
    count
}

/// Classifies `path_str` as exactly one of the four path shapes.
///
/// The four result flags are mutually exclusive: the checks are applied in
/// order, and a path that is neither absolute nor nested is a bare filename.
pub fn get_file_path_config(path_str: &str) -> (r: FilePathConfig)
    ensures
        r.wf(),
        r.unix_absolute_path == is_unix_absolute(path_str@),
        r.windows_absolute_path == (!is_unix_absolute(path_str@) && is_windows_absolute(
            path_str@,
        )),
        r.relative_path_with_separators == (!is_unix_absolute(path_str@)
            && !is_windows_absolute(path_str@) && has_multiple_components(path_str@)),
        r.bare_filename == (!is_unix_absolute(path_str@) && !is_windows_absolute(path_str@)
            && !has_multiple_components(path_str@)),
{
    let n = path_str.unicode_len();
    let mut unix_absolute_path = false;
    let mut windows_absolute_path = false;
    let mut relative_path_with_separators = false;
    let mut bare_filename = false;

    if n > 0 && path_str.get_char(0) == '/' {
        unix_absolute_path = true;
    } else if (n >= 3 && ascii_alpha(path_str.get_char(0)) && path_str.get_char(1) == ':' && (
    path_str.get_char(2) == '\\' || path_str.get_char(2) == '/')) || (n >= 2 && path_str.get_char(
        0,
    ) == '\\' && path_str.get_char(1) == '\\') {
        windows_absolute_path = true;
    } else if count_path_components(path_str) > 1 {
        relative_path_with_separators = true;
    } else {
        bare_filename = true;
    }

    FilePathConfig {
        unix_absolute_path,
        windows_absolute_path,
        relative_path_with_separators,
        bare_filename,
    }
}

/// What one path character contributes to the URL: `\` becomes `/`, a space
/// becomes `%20`, everything else is kept.
pub open spec fn url_char_encoding(c: char) -> Seq<char> {
    if c == '\\' {
        seq!['/']
    } else if c == ' ' {
        seq!['%', '2', '0']
    } else {
        seq![c]
    }
}

/// The URL encoding of a whole path: each character's contribution, in order.
pub open spec fn url_encode(s: Seq<char>) -> Seq<char>
    decreases s.len(),
{
    if s.len() == 0 {
        Seq::<char>::empty()
    } else {
        url_encode(s.drop_last()) + url_char_encoding(s.last())
    }
}

/// The `file://` URL for a path: the encoded path behind `file://` when it is
/// already rooted (starts with `/`), behind `file:///` otherwise.
pub open spec fn file_url_of(s: Seq<char>) -> Seq<char> {
    let enc = url_encode(s);
    if enc.len() > 0 && enc[0] == '/' {
        "file://"@ + enc
    } else {
        "file:///"@ + enc
    }
}

/// Relies on std's `String::push`: appends exactly the one character `c`.
#[verifier::external_body]
fn push_char(s: &mut String, c: char)
    ensures
        final(s)@ == old(s)@.push(c),
{
    s.push(c);
}

/// Turns a path into a `file://` URL by hand: separators are unified to `/`,
/// spaces are `%20`-encoded, and the scheme prefix is chosen so that a rooted
/// path keeps exactly three slashes after `file:`.
pub fn path_to_url_manual(path_str: &str) -> (r: String)
    ensures
        r@ == file_url_of(path_str@),
{
    let n = path_str.unicode_len();
    let mut encoded = String::new();
    let mut i: usize = 0;
    proof {
        assert(path_str@.subrange(0, 0) =~= Seq::<char>::empty());
    }
    while i < n
        invariant
            i <= n,
            n == path_str@.len(),
            encoded@ == url_encode(path_str@.subrange(0, i as int)),
        decreases n - i,
    {
        let c = path_str.get_char(i);
        let ghost prefix = path_str@.subrange(0, i as int);
        let ghost extended = path_str@.subrange(0, i as int + 1);
        proof {
            assert(extended.drop_last() =~= prefix);
            assert(extended.last() == c);
        }
        if c == '\\' {
            push_char(&mut encoded, '/');
            proof {
                assert(encoded@ =~= url_encode(prefix) + url_char_encoding(c));
            }
        } else if c == ' ' {
            push_char(&mut encoded, '%');
            push_char(&mut encoded, '2');
            push_char(&mut encoded, '0');
            proof {
                assert(encoded@ =~= url_encode(prefix) + url_char_encoding(c));
            }
        } else {
            push_char(&mut encoded, c);
            proof {
                assert(encoded@ =~= url_encode(prefix) + url_char_encoding(c));
            }
        }
        i = i + 1;
    }
    proof {
        assert(path_str@.subrange(0, n as int) =~= path_str@);
    }
    let rooted = encoded.as_str().unicode_len() > 0 && encoded.as_str().get_char(0) == '/';
    let prefix: &str = if rooted {
        "file://"
    } else {
        "file:///"
    };
    let mut r = String::from_str(prefix);
    r.append(encoded.as_str());
    r
}

} // verus!
