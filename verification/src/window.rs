//! Window discovery: which top-level windows belong to the tracked
//! application family, and what identity is derived from their titles.
//!
//! A window belongs to the family when its title carries the channel marker
//! and at least one `" - "` separator. The text before the first separator
//! is the window's display name, the text between the first and the second
//! separator (or the end of the title) is its class label, exactly as
//! `str::split` would hand them out.

use vstd::prelude::*;

verus! {

/// The separator that structures a matching title.
pub open spec fn separator() -> Seq<char> {
    " - "@
}

/// The substring that identifies the application family's channel.
pub open spec fn channel_marker() -> Seq<char> {
    "- Beta"@
}

/// `p` occurs in `s` at position `i`.
pub open spec fn occurs_at(s: Seq<char>, p: Seq<char>, i: int) -> bool {
    0 <= i && i + p.len() <= s.len() && s.subrange(i, i + p.len()) == p
}

/// `p` occurs somewhere in `s` at or after position `from`.
pub open spec fn contains_from(s: Seq<char>, p: Seq<char>, from: int) -> bool {
    exists|i: int| from <= i && occurs_at(s, p, i)
}

/// `p` occurs somewhere in `s`.
pub open spec fn contains_pattern(s: Seq<char>, p: Seq<char>) -> bool {
    contains_from(s, p, 0)
}

/// `i` is the first position at or after `from` where `p` occurs in `s`.
pub open spec fn is_first_from(s: Seq<char>, p: Seq<char>, from: int, i: int) -> bool {
    &&& from <= i
    &&& occurs_at(s, p, i)
    &&& forall|j: int| from <= j < i ==> !occurs_at(s, p, j)
}

/// There is at most one first occurrence at or after a given position.
pub proof fn lemma_first_from_unique(s: Seq<char>, p: Seq<char>, from: int, i: int, j: int)
    requires
        is_first_from(s, p, from, i),
        is_first_from(s, p, from, j),
    ensures
        i == j,
{
    if i < j {
        assert(!occurs_at(s, p, i));
    }
    if j < i {
        assert(!occurs_at(s, p, j));
    }
}

/// End of the name segment: the position of the first separator.
/// Meaningful only for titles that contain the separator.
pub open spec fn name_end(t: Seq<char>) -> int {
    choose|i: int| is_first_from(t, separator(), 0, i)
}

/// Start of the class segment: just past the first separator.
pub open spec fn class_start(t: Seq<char>) -> int {
    name_end(t) + separator().len()
}

/// End of the class segment: the next separator, or the end of the title.
pub open spec fn class_end(t: Seq<char>) -> int {
    if contains_from(t, separator(), class_start(t)) {
        choose|i: int| is_first_from(t, separator(), class_start(t), i)
    } else {
        t.len() as int
    }
}

/// The display name a matching title yields: everything before the first
/// separator.
pub open spec fn window_name(t: Seq<char>) -> Seq<char> {
    t.subrange(0, name_end(t))
}

/// The class label a matching title yields: everything between the first
/// separator and the second one, or the end of the title.
pub open spec fn window_class(t: Seq<char>) -> Seq<char> {
    t.subrange(class_start(t), class_end(t))
}

/// A title is kept when it carries the channel marker and at least one
/// separator; every other title is excluded outright.
pub open spec fn title_matches(t: Seq<char>) -> bool {
    contains_pattern(t, channel_marker()) && contains_pattern(t, separator())
}

/// Does `p` occur in `s` exactly at position `i`?
fn pattern_at(s: &str, i: usize, p: &str) -> (b: bool)
    requires
        i + p@.len() <= s@.len(),
        s@.len() <= usize::MAX,
    ensures
        b == occurs_at(s@, p@, i as int),
{
    let m = p.unicode_len();
    let mut j: usize = 0;
    while j < m
        invariant
            m == p@.len(),
            i + m <= s@.len(),
            s@.len() <= usize::MAX,
            j <= m,
            forall|k: int| 0 <= k < j ==> s@[i + k] == p@[k],
        decreases m - j,
    {
        let sc = s.get_char(i + j);
        let pc = p.get_char(j);
        if sc != pc {
            proof {
                if occurs_at(s@, p@, i as int) {
                    assert(s@.subrange(i as int, i + p@.len())[j as int] == s@[i + j]);
                }
            }
            return false;
        }
        j = j + 1;
    }
    proof {
        assert(s@.subrange(i as int, i + p@.len()) =~= p@);
    }
    true
}

/// The position of the first occurrence of `p` in `s` at or after `from`,
/// if there is one.
pub fn find_pattern_from(s: &str, from: usize, p: &str) -> (r: Option<usize>)
    ensures
        r matches Some(i) ==> is_first_from(s@, p@, from as int, i as int),
        r is None ==> !contains_from(s@, p@, from as int),
{
    let n = s.unicode_len();
    let m = p.unicode_len();
    if m > n {
        return None;
    }
    let last = n - m;
    if from > last {
        proof {
            assert forall|j: int| from <= j implies !occurs_at(s@, p@, j) by {
                assert(j > n - m);
            }
        }
        return None;
    }
    let mut i: usize = from;
    while i < last
        invariant
            n == s@.len(),
            m == p@.len(),
            m <= n,
            last == n - m,
            from <= i <= last,
            forall|j: int| from <= j < i ==> !occurs_at(s@, p@, j),
        decreases last - i,
    {
        if pattern_at(s, i, p) {
            return Some(i);
        }
        i = i + 1;
    }
    if pattern_at(s, last, p) {
        return Some(last);
    }
    proof {
        assert forall|j: int| from <= j implies !occurs_at(s@, p@, j) by {
            if j > last {
                assert(j + p@.len() > s@.len());
            }
        }
    }
    None
}

/// A ghost image of one discovered window: its identity as plain values.
pub struct WindowView {
    pub title: Seq<char>,
    pub hwnd: usize,
    pub name: Seq<char>,
    pub class: Seq<char>,
}

/// One discovered window of the tracked family.
#[derive(Debug, PartialEq, Eq)]
pub struct DofusWindow {
    /// Full window title at enumeration time.
    pub title: String,
    /// Opaque operating-system window identifier; never dereferenced.
    pub hwnd: usize,
    /// Display name: the title up to the first separator.
    pub name: String,
    /// Class label: the title between the first and second separator.
    pub class: String,
}

impl View for DofusWindow {
    type V = WindowView;

    open spec fn view(&self) -> WindowView {
        WindowView {
            title: self.title@,
            hwnd: self.hwnd,
            name: self.name@,
            class: self.class@,
        }
    }
}

impl Clone for DofusWindow {
    fn clone(&self) -> (r: Self)
        ensures
            r@ == self@,
    {
        DofusWindow {
            title: self.title.clone(),
            hwnd: self.hwnd,
            name: self.name.clone(),
            class: self.class.clone(),
        }
    }
}

/// What a matching title contributes to the window list.
pub open spec fn window_of(hwnd: usize, t: Seq<char>) -> WindowView {
    WindowView { title: t, hwnd: hwnd, name: window_name(t), class: window_class(t) }
}

/// Splits a title at its first separator into display name and class
/// label; a title without the separator yields nothing.
pub fn parse_title(title: &str) -> (r: Option<(String, String)>)
    ensures
        r is Some <==> contains_pattern(title@, separator()),
        r matches Some(parts) ==> parts.0@ == window_name(title@) && parts.1@ == window_class(
            title@,
        ),
{
    proof {
        reveal_strlit(" - ");
    }
    let n = title.unicode_len();
    match find_pattern_from(title, 0, " - ") {
        None => None,
        Some(i) => {
            proof {
                assert(is_first_from(title@, separator(), 0, i as int));
                lemma_first_from_unique(title@, separator(), 0, i as int, name_end(title@));
            }
            let name = title.substring_char(0, i).to_owned();
            let start = i + 3;
            let end = match find_pattern_from(title, start, " - ") {
                Some(j) => {
                    proof {
                        assert(is_first_from(title@, separator(), start as int, j as int));
                        lemma_first_from_unique(
                            title@,
                            separator(),
                            start as int,
                            j as int,
                            class_end(title@),
                        );
                    }
                    j
                },
                None => {
                    proof {
                        assert(class_end(title@) == title@.len());
                    }
                    n
                },
            };
            let class = title.substring_char(start, end).to_owned();
            Some((name, class))
        },
    }
}

/// Builds the window the enumerator keeps for `title`, if the title
/// matches the family pattern; a title with no separator or no channel
/// marker is excluded entirely.
pub fn match_window(hwnd: usize, title: &str) -> (r: Option<DofusWindow>)
    ensures
        r is Some <==> title_matches(title@),
        r matches Some(w) ==> w@ == window_of(hwnd, title@),
{
    let has_marker = match find_pattern_from(title, 0, "- Beta") {
        Some(_) => true,
        None => false,
    };
    if !has_marker {
        return None;
    }
    match parse_title(title) {
        None => None,
        Some((name, class)) => Some(
            DofusWindow { title: title.to_owned(), hwnd, name, class },
        ),
    }
}

/// One candidate handed over by the operating-system enumeration: a
/// visible top-level window and the title that was read for it.
#[derive(Debug, PartialEq, Eq)]
pub struct RawWindow {
    pub hwnd: usize,
    pub title: String,
}

/// The ghost images of a sequence of windows.
pub open spec fn views_of(ws: Seq<DofusWindow>) -> Seq<WindowView> {
    ws.map_values(|w: DofusWindow| w@)
}

/// The window list that a sequence of enumeration candidates yields:
/// every matching title contributes one window, in enumeration order;
/// every other candidate is dropped.
pub open spec fn matched_windows(raw: Seq<RawWindow>) -> Seq<WindowView>
    decreases raw.len(),
{
    if raw.len() == 0 {
        Seq::empty()
    } else {
        let rest = matched_windows(raw.drop_last());
        if title_matches(raw.last().title@) {
            rest.push(window_of(raw.last().hwnd, raw.last().title@))
        } else {
            rest
        }
    }
}

/// Filters enumeration candidates down to the tracked window list,
/// keeping enumeration order.
pub fn build_window_list(raw: &Vec<RawWindow>) -> (out: Vec<DofusWindow>)
    ensures
        views_of(out@) == matched_windows(raw@),
{
    let mut out: Vec<DofusWindow> = Vec::new();
    let mut i: usize = 0;
    proof {
        assert(views_of(out@) =~= matched_windows(raw@.subrange(0, 0)));
    }
    while i < raw.len()
        invariant
            i <= raw.len(),
            views_of(out@) == matched_windows(raw@.subrange(0, i as int)),
        decreases raw.len() - i,
    {
        let ghost prefix = raw@.subrange(0, i as int);
        let ghost next_prefix = raw@.subrange(0, i + 1);
        proof {
            assert(next_prefix.drop_last() =~= prefix);
            assert(next_prefix.last() == raw@[i as int]);
        }
        match match_window(raw[i].hwnd, raw[i].title.as_str()) {
            Some(w) => {
                let ghost old_out = out@;
                out.push(w);
                proof {
                    assert(views_of(out@) =~= views_of(old_out).push(w@));
                }
            },
            None => {},
        }
        i = i + 1;
    }
    proof {
        assert(raw@.subrange(0, raw@.len() as int) =~= raw@);
    }
    out
}

/// The position of the first window in `windows` that carries the handle
/// `hwnd`, if any does.
pub fn find_by_hwnd(windows: &Vec<DofusWindow>, hwnd: usize) -> (r: Option<usize>)
    ensures
        r matches Some(i) ==> i < windows@.len() && windows@[i as int].hwnd == hwnd && forall|
            j: int,
        | 0 <= j < i ==> windows@[j].hwnd != hwnd,
        r is None <==> forall|j: int| 0 <= j < windows@.len() ==> windows@[j].hwnd != hwnd,
{
    let mut i: usize = 0;
    while i < windows.len()
        invariant
            i <= windows.len(),
            forall|j: int| 0 <= j < i ==> windows@[j].hwnd != hwnd,
        decreases windows.len() - i,
    {
        if windows[i].hwnd == hwnd {
            return Some(i);
        }
        i = i + 1;
    }
    None
}

} // verus!
