use vstd::prelude::*;

use crate::config::{opt_text, GameEntry};
use crate::text::{
    byte_len, char_upper, char_upper_of, chars_of, is_lower, is_space, is_upper, lower_char,
    lower_of, push_char, space_char, string_of, text_eq, to_lower, trim, trimmed_of, upper_char,
    utf8_len,
};

verus! {

// ---- the executable's file name ----

/// The part of a path after its last backslash.
pub open spec fn file_name_of(path: Seq<char>) -> Seq<char>
    decreases path.len(),
{
    if path.len() == 0 {
        Seq::empty()
    } else if path.last() == '\\' {
        Seq::empty()
    } else {
        file_name_of(path.drop_last()).push(path.last())
    }
}

/// The file name of a module path (`C:\Games\Game.exe` gives `Game.exe`).
pub fn exe_file_name(path: &str) -> (r: String)
    ensures
        r@ == file_name_of(path@),
{
    let cs = chars_of(path);
    let mut seg: Vec<char> = Vec::new();
    let mut i: usize = 0;
    while i < cs.len()
        invariant
            cs@ == path@,
            i <= cs@.len(),
            seg@ == file_name_of(cs@.subrange(0, i as int)),
        decreases cs@.len() - i,
    {
        proof {
            assert(cs@.subrange(0, i + 1).drop_last() =~= cs@.subrange(0, i as int));
        }
        if cs[i] == '\\' {
            seg = Vec::new();
        } else {
            seg.push(cs[i]);
        }
        i = i + 1;
    }
    assert(cs@.subrange(0, cs@.len() as int) =~= cs@);
    string_of(seg.as_slice())
}

// ---- name from the executable ----

/// The file name without a `.exe` or `.EXE` extension.
pub open spec fn strip_exe(s: Seq<char>) -> Seq<char> {
    if s.len() >= 4 && (s.subrange(s.len() - 4, s.len() as int) == ".exe"@ || s.subrange(
        s.len() - 4,
        s.len() as int,
    ) == ".EXE"@) {
        s.subrange(0, s.len() - 4)
    } else {
        s
    }
}

pub open spec fn separator_to_space(c: char) -> char {
    if c == '-' || c == '_' {
        ' '
    } else {
        c
    }
}

/// Hyphens and underscores become spaces.
pub open spec fn spaced(s: Seq<char>) -> Seq<char> {
    s.map_values(|c: char| separator_to_space(c))
}

/// A space goes before position `i`: an uppercase letter after a lowercase
/// one, or the last capital of an initialism followed by a lowercase letter.
pub open spec fn breaks_before(s: Seq<char>, i: int) -> bool {
    &&& i > 0
    &&& upper_char(s[i])
    &&& lower_char(s[i - 1]) || (upper_char(s[i - 1]) && i + 1 < s.len() && lower_char(s[i + 1]))
}

pub open spec fn camel_prefix(s: Seq<char>, k: int) -> Seq<char>
    decreases k,
{
    if k <= 0 {
        Seq::empty()
    } else if breaks_before(s, k - 1) {
        camel_prefix(s, k - 1).push(' ').push(s[k - 1])
    } else {
        camel_prefix(s, k - 1).push(s[k - 1])
    }
}

/// The text with camel-case words separated by spaces.
pub open spec fn camel_split(s: Seq<char>) -> Seq<char> {
    camel_prefix(s, s.len() as int)
}

/// Title-casing of the first `k` characters: the words (maximal runs
/// without white space), each with its first character uppercased, joined
/// by single spaces; and whether the prefix ends inside a word.
pub open spec fn title_prefix(s: Seq<char>, k: int) -> (Seq<char>, bool)
    decreases k,
{
    if k <= 0 {
        (Seq::empty(), false)
    } else {
        let prev = title_prefix(s, k - 1);
        let c = s[k - 1];
        if space_char(c) {
            (prev.0, false)
        } else if prev.1 {
            (prev.0.push(c), true)
        } else if prev.0.len() == 0 {
            (char_upper_of(c), true)
        } else {
            (prev.0.push(' ') + char_upper_of(c), true)
        }
    }
}

pub open spec fn title_words(s: Seq<char>) -> Seq<char> {
    title_prefix(s, s.len() as int).0
}

/// The readable name made from an executable's file name, if any.
pub open spec fn exe_display_name(exe: Seq<char>) -> Option<Seq<char>> {
    let base = strip_exe(exe);
    if base.len() == 0 {
        None
    } else {
        let t = title_words(camel_split(spaced(base)));
        if t.len() == 0 {
            None
        } else {
            Some(t)
        }
    }
}

fn has_exe_suffix(cs: &Vec<char>) -> (r: bool)
    ensures
        r == (cs@.len() >= 4 && (cs@.subrange(cs@.len() - 4, cs@.len() as int) == ".exe"@
            || cs@.subrange(cs@.len() - 4, cs@.len() as int) == ".EXE"@)),
{
    proof {
        reveal_strlit(".exe");
        reveal_strlit(".EXE");
    }
    let n = cs.len();
    if n < 4 {
        return false;
    }
    let ghost tail = cs@.subrange(n - 4, n as int);
    let lower = cs[n - 4] == '.' && cs[n - 3] == 'e' && cs[n - 2] == 'x' && cs[n - 1] == 'e';
    let upper = cs[n - 4] == '.' && cs[n - 3] == 'E' && cs[n - 2] == 'X' && cs[n - 1] == 'E';
    assert(lower ==> tail =~= ".exe"@);
    assert(upper ==> tail =~= ".EXE"@);
    assert(tail == ".exe"@ ==> tail[0] == '.' && tail[1] == 'e' && tail[2] == 'x' && tail[3]
        == 'e');
    assert(tail == ".EXE"@ ==> tail[0] == '.' && tail[1] == 'E' && tail[2] == 'X' && tail[3]
        == 'E');
    lower || upper
}

/// A readable game name from an executable's file name: the extension is
/// dropped, hyphens and underscores become spaces, camel case is split while
/// initialisms stay whole, and each word starts with a capital
/// (`DarkSoulsIII.exe` gives `Dark Souls III`). `None` when nothing is left.
pub fn name_from_exe(exe: &str) -> (r: Option<String>)
    ensures
        opt_text(r) == exe_display_name(exe@),
{
    let cs = chars_of(exe);
    let n = cs.len();
    let end: usize = if has_exe_suffix(&cs) {
        n - 4
    } else {
        n
    };
    if end == 0 {
        return None;
    }
    let ghost base = strip_exe(exe@);
    assert(base =~= cs@.subrange(0, end as int));
    // hyphens and underscores
    let mut sp: Vec<char> = Vec::new();
    let mut i: usize = 0;
    while i < end
        invariant
            cs@ == exe@,
            end <= cs@.len(),
            base == cs@.subrange(0, end as int),
            i <= end,
            sp@ =~= spaced(base).subrange(0, i as int),
        decreases end - i,
    {
        let c = cs[i];
        sp.push(if c == '-' || c == '_' { ' ' } else { c });
        i = i + 1;
    }
    let ghost s1 = spaced(base);
    assert(sp@ =~= s1);
    // camel case
    let m = sp.len();
    let mut cam: Vec<char> = Vec::new();
    let mut j: usize = 0;
    while j < m
        invariant
            m == sp@.len(),
            sp@ == s1,
            j <= m,
            cam@ == camel_prefix(s1, j as int),
        decreases m - j,
    {
        let c = sp[j];
        let brk = if j > 0 && is_upper(c) {
            let p = sp[j - 1];
            is_lower(p) || (is_upper(p) && j + 1 < m && is_lower(sp[j + 1]))
        } else {
            false
        };
        assert(brk == breaks_before(s1, j as int));
        if brk {
            cam.push(' ');
        }
        cam.push(c);
        j = j + 1;
    }
    let ghost s2 = camel_split(s1);
    // title case
    let k = cam.len();
    let mut out = String::new();
    let mut open = false;
    let mut q: usize = 0;
    while q < k
        invariant
            k == cam@.len(),
            cam@ == s2,
            q <= k,
            (out@, open) == title_prefix(s2, q as int),
        decreases k - q,
    {
        let c = cam[q];
        if is_space(c) {
            open = false;
        } else if open {
            push_char(&mut out, c);
        } else {
            if out.unicode_len() > 0 {
                push_char(&mut out, ' ');
            }
            let up = char_upper(c);
            out.append(up.as_str());
            open = true;
        }
        q = q + 1;
    }
    if out.unicode_len() == 0 {
        None
    } else {
        Some(out)
    }
}

// ---- name from the configuration ----

/// The `name` of the first entry whose process matches `exe_lower` when
/// lowercased; `None` when no entry matches.
pub open spec fn config_name_of(games: Seq<GameEntry>, exe_lower: Seq<char>) -> Option<Seq<char>>
    decreases games.len(),
{
    if games.len() == 0 {
        None
    } else if lower_of(games[0].process@) == exe_lower {
        opt_text(games[0].name)
    } else {
        config_name_of(games.subrange(1, games.len() as int), exe_lower)
    }
}

/// The display name configured for the executable `exe` (compared without
/// regard to case).
pub fn name_from_config(games: &Vec<GameEntry>, exe: &str) -> (r: Option<String>)
    ensures
        opt_text(r) == config_name_of(games@, lower_of(exe@)),
{
    let exe_lower = to_lower(exe);
    let n = games.len();
    let mut i: usize = 0;
    assert(games@.subrange(0, n as int) =~= games@);
    while i < n
        invariant
            n == games@.len(),
            i <= n,
            exe_lower@ == lower_of(exe@),
            config_name_of(games@, lower_of(exe@)) == config_name_of(
                games@.subrange(i as int, n as int),
                lower_of(exe@),
            ),
        decreases n - i,
    {
        let g = &games[i];
        let p = to_lower(g.process.as_str());
        proof {
            let rest = games@.subrange(i as int, n as int);
            assert(rest[0] == games@[i as int]);
            assert(rest.subrange(1, rest.len() as int) =~= games@.subrange(i + 1, n as int));
            assert(config_name_of(rest, lower_of(exe@)) == if lower_of(rest[0].process@)
                == lower_of(exe@) {
                opt_text(rest[0].name)
            } else {
                config_name_of(rest.subrange(1, rest.len() as int), lower_of(exe@))
            });
        }
        if text_eq(p.as_str(), exe_lower.as_str()) {
            return match &g.name {
                Some(name) => Some(name.clone()),
                None => None,
            };
        }
        i = i + 1;
    }
    None
}

// ---- name from the window title ----

/// Titles that name no game.
pub open spec fn junk_title(lower: Seq<char>) -> bool {
    ||| lower == "window"@
    ||| lower == "default"@
    ||| lower == "ime"@
    ||| lower == "msctfime"@
    ||| lower == "gdi+"@
    ||| lower == "dwm"@
    ||| lower == "desktop"@
    ||| lower == "program manager"@
}

pub open spec fn usable_title(t: Seq<char>) -> bool {
    utf8_len(t) >= 2 && !junk_title(lower_of(t))
}

/// A title names the game unless it is shorter than two UTF-8 bytes or,
/// lowercased, one of the generic system window titles.
pub fn is_usable_title(title: &str) -> (r: bool)
    ensures
        r == usable_title(title@),
{
    if byte_len(title) < 2 {
        return false;
    }
    let lower = to_lower(title);
    let l = lower.as_str();
    !(text_eq(l, "window") || text_eq(l, "default") || text_eq(l, "ime") || text_eq(
        l,
        "msctfime",
    ) || text_eq(l, "gdi+") || text_eq(l, "dwm") || text_eq(l, "desktop") || text_eq(
        l,
        "program manager",
    ))
}

pub open spec fn titles_view(ts: Seq<String>) -> Seq<Seq<char>> {
    ts.map_values(|t: String| t@)
}

/// The longest text in UTF-8 bytes; the first of equally long ones.
pub open spec fn longest_of(ts: Seq<Seq<char>>) -> Seq<char>
    decreases ts.len(),
{
    if ts.len() == 0 {
        Seq::empty()
    } else if utf8_len(ts.last()) > utf8_len(longest_of(ts.drop_last())) {
        ts.last()
    } else {
        longest_of(ts.drop_last())
    }
}

/// The trimmed longest title, when it is usable.
pub open spec fn title_name_of(titles: Seq<String>) -> Option<Seq<char>> {
    let t = trimmed_of(longest_of(titles_view(titles)));
    if usable_title(t) {
        Some(t)
    } else {
        None
    }
}

/// The game name from the titles of the process's visible top-level
/// windows: the longest one, trimmed, unless it is unusable.
pub fn name_from_window_title(titles: &Vec<String>) -> (r: Option<String>)
    ensures
        opt_text(r) == title_name_of(titles@),
{
    let n = titles.len();
    let mut best = String::new();
    let mut i: usize = 0;
    while i < n
        invariant
            n == titles@.len(),
            i <= n,
            best@ == longest_of(titles_view(titles@.subrange(0, i as int))),
        decreases n - i,
    {
        proof {
            assert(titles_view(titles@.subrange(0, i + 1)).drop_last() =~= titles_view(
                titles@.subrange(0, i as int),
            ));
        }
        if byte_len(titles[i].as_str()) > byte_len(best.as_str()) {
            best = titles[i].clone();
        }
        i = i + 1;
    }
    assert(titles@.subrange(0, n as int) =~= titles@);
    let t = trim(best.as_str());
    if is_usable_title(t.as_str()) {
        Some(t)
    } else {
        None
    }
}

// ---- the three sources together ----

/// The game name: the configured display name for the executable when there
/// is a non-empty one; else the longest usable window title; else the name
/// made from the executable's file name.
pub open spec fn game_name_of(
    games: Seq<GameEntry>,
    exe: Option<Seq<char>>,
    titles: Seq<String>,
) -> Option<Seq<char>> {
    let configured = match exe {
        Some(e) => config_name_of(games, lower_of(e)),
        None => None,
    };
    if configured matches Some(n) && n.len() > 0 {
        configured
    } else if title_name_of(titles).is_some() {
        title_name_of(titles)
    } else {
        match exe {
            Some(e) => exe_display_name(e),
            None => None,
        }
    }
}

/// Resolves the game's name from the configured games, the executable's
/// file name (`None` when it could not be read) and the titles of the
/// process's visible top-level windows.
pub fn detect_game_name(
    games: &Vec<GameEntry>,
    exe_name: &Option<String>,
    window_titles: &Vec<String>,
) -> (r: Option<String>)
    ensures
        opt_text(r) == game_name_of(games@, opt_text(*exe_name), window_titles@),
        r matches Some(n) ==> n@.len() > 0,
{
    if let Some(exe) = exe_name {
        let configured = name_from_config(games, exe.as_str());
        if let Some(n) = configured {
            if n.unicode_len() > 0 {
                return Some(n);
            }
        }
    }
    let from_title = name_from_window_title(window_titles);
    if from_title.is_some() {
        return from_title;
    }
    match exe_name {
        Some(exe) => name_from_exe(exe.as_str()),
        None => None,
    }
}

} // verus!
