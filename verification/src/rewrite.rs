//! The targeted rewrite of one `theme=` declaration inside an existing
//! startup script.
//!
//! The rewrite finds the first occurrence of `theme=` in the text and
//! replaces it, together with everything up to (but not including) the next
//! line break, by `theme=` followed by the new theme name. When no such
//! occurrence exists the text is returned unchanged: no line is appended.
//! The rewrite itself is gated on the wallpaper asset directory being
//! present; [`should_rewrite`] decides that from the directory's observed
//! state, and a negative decision means the target file is never touched.

use vstd::prelude::*;

verus! {

/// Whether `theme=` stands in `s` at position `i`.
pub open spec fn theme_match_at(s: Seq<char>, i: int) -> bool {
    0 <= i && i + 6 <= s.len() && s.subrange(i, i + 6) == "theme="@
}

/// The first position at or after `i` where `theme=` stands in `s`,
/// or `-1` when there is none.
pub open spec fn first_theme_match_from(s: Seq<char>, i: int) -> int
    recommends
        0 <= i <= s.len(),
    decreases s.len() - i when 0 <= i <= s.len()
{
    if i + 6 > s.len() {
        -1
    } else if s.subrange(i, i + 6) == "theme="@ {
        i
    } else {
        first_theme_match_from(s, i + 1)
    }
}

/// The first position where `theme=` stands in `s`, or `-1` when none.
pub open spec fn first_theme_match(s: Seq<char>) -> int {
    first_theme_match_from(s, 0)
}

/// The position of the first line break at or after `i`, or the length of
/// `s` when the last line is unterminated.
pub open spec fn line_end_from(s: Seq<char>, i: int) -> int
    recommends
        0 <= i <= s.len(),
    decreases s.len() - i when 0 <= i <= s.len()
{
    if i >= s.len() {
        s.len() as int
    } else if s[i] == '\n' {
        i
    } else {
        line_end_from(s, i + 1)
    }
}

/// What the rewrite produces: `s` unchanged when it holds no `theme=`,
/// otherwise `s` with the first `theme=` and the rest of its line replaced
/// by `theme=` followed by the new name.
pub open spec fn rewrite_theme_spec(s: Seq<char>, theme: Seq<char>) -> Seq<char> {
    let f = first_theme_match(s);
    if f < 0 {
        s
    } else {
        s.subrange(0, f) + "theme="@ + theme + s.subrange(line_end_from(s, f + 6), s.len() as int)
    }
}

/// `first_theme_match_from` finds exactly the least match position:
/// `-1` means nothing at or after `i` matches, and a non-negative result
/// is a match with none before it (from `i` on).
pub proof fn lemma_first_theme_match_from(s: Seq<char>, i: int)
    requires
        0 <= i <= s.len(),
    ensures
        -1 <= first_theme_match_from(s, i),
        first_theme_match_from(s, i) == -1 ==> forall|j: int|
            i <= j ==> !theme_match_at(s, j),
        first_theme_match_from(s, i) >= 0 ==> i <= first_theme_match_from(s, i)
            && theme_match_at(s, first_theme_match_from(s, i)) && forall|j: int|
            i <= j < first_theme_match_from(s, i) ==> !theme_match_at(s, j),
    decreases s.len() - i,
{
    if i + 6 > s.len() {
        assert forall|j: int| i <= j implies !theme_match_at(s, j) by {
            assert(j + 6 > s.len());
        }
    } else if s.subrange(i, i + 6) == "theme="@ {
    } else {
        lemma_first_theme_match_from(s, i + 1);
    }
}

/// A text without any `theme=` occurrence is left unchanged by the rewrite.
pub proof fn lemma_rewrite_without_match(s: Seq<char>, theme: Seq<char>)
    requires
        forall|j: int| !theme_match_at(s, j),
    ensures
        rewrite_theme_spec(s, theme) == s,
{
    lemma_first_theme_match_from(s, 0);
    if first_theme_match(s) >= 0 {
        assert(theme_match_at(s, first_theme_match(s)));
    }
}

/// A text with a `theme=` occurrence is rewritten non-destructively: only
/// the first occurrence and the rest of its line are replaced by `theme=`
/// and the new name; everything before the occurrence and everything from
/// the following line break on is kept verbatim.
pub proof fn lemma_rewrite_with_match(s: Seq<char>, theme: Seq<char>)
    requires
        exists|j: int| theme_match_at(s, j),
    ensures
        ({
            let f = first_theme_match(s);
            let e = line_end_from(s, f + 6);
            &&& 0 <= f
            &&& theme_match_at(s, f)
            &&& forall|j: int| 0 <= j < f ==> !theme_match_at(s, j)
            &&& f + 6 <= e <= s.len()
            &&& rewrite_theme_spec(s, theme) == s.subrange(0, f) + "theme="@ + theme + s.subrange(
                e,
                s.len() as int,
            )
        }),
{
    lemma_first_theme_match_from(s, 0);
    let j = choose|j: int| theme_match_at(s, j);
    assert(theme_match_at(s, j));
    let f = first_theme_match(s);
    if f == -1 {
        assert(!theme_match_at(s, j));
    }
    assert(f >= 0);
    lemma_line_end_from(s, f + 6);
}

/// `line_end_from(s, i)` is the least line-break position at or after `i`
/// (the length of `s` when no line break follows).
pub proof fn lemma_line_end_from(s: Seq<char>, i: int)
    requires
        0 <= i <= s.len(),
    ensures
        i <= line_end_from(s, i) <= s.len(),
        line_end_from(s, i) < s.len() ==> s[line_end_from(s, i)] == '\n',
        forall|j: int| i <= j < line_end_from(s, i) ==> s[j] != '\n',
    decreases s.len() - i,
{
    if i >= s.len() {
    } else if s[i] == '\n' {
    } else {
        lemma_line_end_from(s, i + 1);
    }
}

/// Whether `theme=` stands at position `i` of `s`.
fn theme_match_here(s: &str, i: usize) -> (b: bool)
    requires
        i + 6 <= s@.len(),
        i + 6 <= usize::MAX,
    ensures
        b == theme_match_at(s@, i as int),
{
    proof {
        reveal_strlit("theme=");
    }
    let b = s.get_char(i) == 't' && s.get_char(i + 1) == 'h' && s.get_char(i + 2) == 'e'
        && s.get_char(i + 3) == 'm' && s.get_char(i + 4) == 'e' && s.get_char(i + 5) == '=';
    proof {
        let subr = s@.subrange(i as int, i as int + 6);
        assert(subr.len() == 6 && "theme="@.len() == 6);
        assert(subr[0] == s@[i as int] && subr[1] == s@[i as int + 1] && subr[2] == s@[i as int + 2]
            && subr[3] == s@[i as int + 3] && subr[4] == s@[i as int + 4] && subr[5] == s@[i as int
            + 5]);
        if b {
            assert(subr =~= "theme="@);
        } else {
            assert(subr != "theme="@);
        }
    }
    b
}

/// The first position of `theme=` in `s`, when there is one.
fn find_theme_start(s: &str) -> (r: Option<usize>)
    ensures
        r is None ==> first_theme_match(s@) == -1,
        r matches Some(i) ==> first_theme_match(s@) == i as int && i + 6 <= s@.len(),
{
    let n = s.unicode_len();
    if n < 6 {
        return None;
    }
    let mut i: usize = 0;
    loop
        invariant
            6 <= n == s@.len(),
            0 <= i <= n - 5,
            first_theme_match(s@) == first_theme_match_from(s@, i as int),
        decreases n - i,
    {
        if i > n - 6 {
            return None;
        }
        if theme_match_here(s, i) {
            return Some(i);
        }
        i = i + 1;
    }
}

/// The position of the first line break at or after `from`, or the text's
/// length when the last line is unterminated.
fn find_line_end(s: &str, from: usize) -> (e: usize)
    requires
        from <= s@.len(),
    ensures
        e as int == line_end_from(s@, from as int),
        from <= e <= s@.len(),
{
    let n = s.unicode_len();
    let mut i: usize = from;
    while i < n
        invariant
            from <= i <= n == s@.len(),
            line_end_from(s@, from as int) == line_end_from(s@, i as int),
        decreases n - i,
    {
        if s.get_char(i) == '\n' {
            return i;
        }
        i = i + 1;
    }
    i
}

/// Rewrite the first `theme=` line of `contents` to name `theme`, exactly
/// as [`rewrite_theme_spec`] states it; text without a `theme=` occurrence
/// comes back unchanged.
pub fn rewrite_theme_line(contents: &str, theme: &str) -> (r: String)
    ensures
        r@ == rewrite_theme_spec(contents@, theme@),
{
    match find_theme_start(contents) {
        None => contents.to_owned(),
        Some(i) => {
            let n = contents.unicode_len();
            let e = find_line_end(contents, i + 6);
            let prefix = contents.substring_char(0, i);
            let suffix = contents.substring_char(e, n);
            let mut out = String::from_str(prefix);
            out.append("theme=");
            out.append(theme);
            out.append(suffix);
            proof {
                assert(out@ =~= rewrite_theme_spec(contents@, theme@));
            }
            out
        },
    }
}

/// Whether the startup-script rewrite may proceed: true exactly when the
/// wallpaper asset directory was found and is a directory. A negative
/// decision downgrades the rewrite to a warned no-op that leaves the target
/// file untouched.
pub fn should_rewrite(wallpaper_dir_exists: bool, wallpaper_dir_is_dir: bool) -> (r: bool)
    ensures
        r == (wallpaper_dir_exists && wallpaper_dir_is_dir),
{
    wallpaper_dir_exists && wallpaper_dir_is_dir
}

} // verus!
