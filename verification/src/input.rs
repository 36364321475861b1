//! Decision logic behind the interactive prompts: the grammar of
//! episode-range input ("2-6,9"), keystroke acceptance, and the
//! interpretation of a finished series selection.  The terminal widget
//! that collects the keystrokes lives outside this crate and hands the
//! collected values in.

use vstd::prelude::*;

use crate::items::spec_is_numeric;
use crate::text::parse_decimal;
use crate::text::spec_digits_val;

verus! {

/// How one line of an interactive menu behaves.
#[derive(Clone, Copy, Debug, PartialEq, Eq, Structural)]
pub enum InteractiveOptionType {
    Header,
    Button,
    /// A button that confirms itself after a short countdown.
    Button5s,
    MultiButton,
    ListButtons,
    TextInput,
    Special,
}

/// One line of an interactive menu.
#[derive(Clone, Debug, PartialEq)]
pub struct InteractiveOption {
    pub text: String,
    pub option_type: InteractiveOptionType,
}

/// What a series-selection round asks for.
#[derive(Clone, Copy, Debug, PartialEq, Eq, Structural)]
pub enum SeriesOptions {
    Back,
    Played,
    UnPlayed,
    Play,
}

/// One row of the episode table a series selection works on.
#[derive(Clone, Debug, PartialEq)]
pub struct Episode {
    pub title: String,
    pub watched: bool,
}

/// The entries of the top-level menu.
#[derive(Clone, Debug, PartialEq)]
pub enum MenuOptions {
    Default(String),
    Choose,
    Setup,
    Setting,
    Exit,
}

impl MenuOptions {
    /// The label a menu entry is listed under; a default server entry
    /// names itself unless its message is empty.
    pub fn label(&self) -> (r: String)
        ensures
            r@ == match *self {
                MenuOptions::Default(m) => if m@.len() == 0 {
                    "Stream from default Media-Center"@
                } else {
                    m@
                },
                MenuOptions::Choose => "View Media-Centers"@,
                MenuOptions::Setup => "Add new Media-Center"@,
                MenuOptions::Setting => "Settings"@,
                MenuOptions::Exit => "Exit"@,
            },
    {
        match self {
            MenuOptions::Default(message) => {
                if message.as_str().unicode_len() == 0 {
                    String::from_str("Stream from default Media-Center")
                } else {
                    message.clone()
                }
            },
            MenuOptions::Choose => String::from_str("View Media-Centers"),
            MenuOptions::Setup => String::from_str("Add new Media-Center"),
            MenuOptions::Setting => String::from_str("Settings"),
            MenuOptions::Exit => String::from_str("Exit"),
        }
    }
}

/// The first position in `p .. b` holding character `c`, or `b` when
/// none does.
pub open spec fn spec_find_before(s: Seq<char>, p: int, b: int, c: char) -> int
    decreases b - p,
{
    if p < 0 || p >= b {
        b
    } else if s[p] == c {
        p
    } else {
        spec_find_before(s, p + 1, b, c)
    }
}

/// The numbers denoted by the token standing in `a .. b`: a plain
/// number denotes itself, `lo-hi` denotes every number from `lo` to
/// `hi`, and anything malformed or out of range denotes nothing.
pub open spec fn spec_token_values(s: Seq<char>, a: int, b: int) -> Set<nat> {
    let d = spec_find_before(s, a, b, '-');
    if d == b {
        let tok = s.subrange(a, b);
        if spec_is_numeric(tok) && spec_digits_val(tok) <= usize::MAX {
            Set::new(|n: nat| n == spec_digits_val(tok))
        } else {
            Set::empty()
        }
    } else {
        let lo = s.subrange(a, d);
        let hi = s.subrange(d + 1, b);
        if spec_is_numeric(lo) && spec_is_numeric(hi) && spec_digits_val(lo) <= usize::MAX
            && spec_digits_val(hi) <= usize::MAX {
            Set::new(|n: nat| spec_digits_val(lo) <= n <= spec_digits_val(hi))
        } else {
            Set::empty()
        }
    }
}

/// A token without a dash that fails to parse denotes nothing.
proof fn lemma_token_values_empty_plain(s: Seq<char>, a: int, b: int)
    requires
        spec_find_before(s, a, b, '-') == b,
        !(spec_is_numeric(s.subrange(a, b)) && spec_digits_val(s.subrange(a, b)) <= usize::MAX),
    ensures
        spec_token_values(s, a, b) =~= Set::<nat>::empty(),
{
}

/// A plain numeric token denotes exactly its value.
proof fn lemma_token_values_plain(s: Seq<char>, a: int, b: int)
    requires
        spec_find_before(s, a, b, '-') == b,
        spec_is_numeric(s.subrange(a, b)),
        spec_digits_val(s.subrange(a, b)) <= usize::MAX,
    ensures
        spec_token_values(s, a, b) =~= Set::new(
            |n: nat| n == spec_digits_val(s.subrange(a, b)),
        ),
{
}

/// A well-formed range token denotes the numbers between its bounds.
proof fn lemma_token_values_range(s: Seq<char>, a: int, b: int)
    requires
        spec_find_before(s, a, b, '-') < b,
        ({
            let d = spec_find_before(s, a, b, '-');
            spec_is_numeric(s.subrange(a, d)) && spec_is_numeric(s.subrange(d + 1, b))
                && spec_digits_val(s.subrange(a, d)) <= usize::MAX && spec_digits_val(
                s.subrange(d + 1, b),
            ) <= usize::MAX
        }),
    ensures
        ({
            let d = spec_find_before(s, a, b, '-');
            spec_token_values(s, a, b) =~= Set::new(
                |n: nat| spec_digits_val(s.subrange(a, d)) <= n <= spec_digits_val(
                    s.subrange(d + 1, b),
                ),
            )
        }),
{
}

/// A range token with a malformed side denotes nothing.
proof fn lemma_token_values_empty_range(s: Seq<char>, a: int, b: int)
    requires
        spec_find_before(s, a, b, '-') < b,
        ({
            let d = spec_find_before(s, a, b, '-');
            !(spec_is_numeric(s.subrange(a, d)) && spec_digits_val(s.subrange(a, d))
                <= usize::MAX) || !(spec_is_numeric(s.subrange(d + 1, b)) && spec_digits_val(
                s.subrange(d + 1, b),
            ) <= usize::MAX)
        }),
    ensures
        spec_token_values(s, a, b) =~= Set::<nat>::empty(),
{
}

/// The first position found lies between `p` and `b`.
pub proof fn lemma_find_before_bounds(s: Seq<char>, p: int, b: int, c: char)
    requires
        p <= b,
    ensures
        p <= spec_find_before(s, p, b, c) <= b,
    decreases b - p,
{
    if p < 0 || p >= b {
    } else if s[p] == c {
    } else {
        lemma_find_before_bounds(s, p + 1, b, c);
    }
}

/// The numbers denoted by the comma-separated tokens from position `p`
/// on.
pub open spec fn spec_denoted_from(s: Seq<char>, p: int) -> Set<nat>
    decreases s.len() - p,
    via spec_denoted_from_dec
{
    if p < 0 || p > s.len() {
        Set::empty()
    } else {
        let k = spec_find_before(s, p, s.len() as int, ',');
        if k == s.len() {
            spec_token_values(s, p, k)
        } else {
            spec_token_values(s, p, k) + spec_denoted_from(s, k + 1)
        }
    }
}

#[via_fn]
proof fn spec_denoted_from_dec(s: Seq<char>, p: int) {
    if 0 <= p <= s.len() {
        lemma_find_before_bounds(s, p, s.len() as int, ',');
    }
}

/// The set of numbers an episode-range input denotes.
pub open spec fn spec_denoted(s: Seq<char>) -> Set<nat> {
    spec_denoted_from(s, 0)
}

/// The set of values held in a vector.
pub open spec fn value_set(vs: Seq<usize>) -> Set<nat> {
    Set::new(|n: nat| exists|k: int| 0 <= k < vs.len() && vs[k] == n)
}

/// Strictly ascending: sorted with no duplicates.
pub open spec fn strictly_sorted(vs: Seq<usize>) -> bool {
    forall|i: int, j: int| 0 <= i < j < vs.len() ==> vs[i] < vs[j]
}

/// Appending a value adds exactly that value to the value set.
proof fn lemma_value_set_push(vs: Seq<usize>, v: usize)
    ensures
        value_set(vs.push(v)) =~= value_set(vs) + Set::new(|n: nat| n == v),
{
    assert forall|n: nat| value_set(vs.push(v)).contains(n) implies (value_set(vs) + Set::new(
        |n2: nat| n2 == v,
    )).contains(n) by {
        let k = choose|k: int| 0 <= k < vs.push(v).len() && vs.push(v)[k] == n;
        if k < vs.len() {
            assert(vs[k] == n);
        }
    }
    assert forall|n: nat| (value_set(vs) + Set::new(|n2: nat| n2 == v)).contains(n)
        implies value_set(vs.push(v)).contains(n) by {
        if value_set(vs).contains(n) {
            let k = choose|k: int| 0 <= k < vs.len() && vs[k] == n;
            assert(vs.push(v)[k] == n);
        } else {
            assert(vs.push(v)[vs.len() as int] == n);
        }
    }
}

/// Inserting a value adds exactly that value to the value set.
proof fn lemma_value_set_insert(vs: Seq<usize>, j: int, v: usize)
    requires
        0 <= j <= vs.len(),
    ensures
        value_set(vs.insert(j, v)) =~= value_set(vs) + Set::new(|n: nat| n == v),
{
    let ins = vs.insert(j, v);
    assert forall|n: nat| value_set(ins).contains(n) implies (value_set(vs) + Set::new(
        |n2: nat| n2 == v,
    )).contains(n) by {
        let k = choose|k: int| 0 <= k < ins.len() && ins[k] == n;
        if k < j {
            assert(vs[k] == n);
        } else if k > j {
            assert(vs[k - 1] == n);
        }
    }
    assert forall|n: nat| (value_set(vs) + Set::new(|n2: nat| n2 == v)).contains(n)
        implies value_set(ins).contains(n) by {
        if value_set(vs).contains(n) {
            let k = choose|k: int| 0 <= k < vs.len() && vs[k] == n;
            if k < j {
                assert(ins[k] == n);
            } else {
                assert(ins[k + 1] == n);
            }
        } else {
            assert(ins[j] == n);
        }
    }
}

/// Taking the first value off splits the value set into that value and
/// the rest.
proof fn lemma_value_set_drop_first(vs: Seq<usize>)
    requires
        vs.len() > 0,
    ensures
        value_set(vs) =~= value_set(vs.drop_first()) + Set::new(|n: nat| n == vs.first()),
{
    assert forall|n: nat| value_set(vs).contains(n) implies (value_set(vs.drop_first())
        + Set::new(|n2: nat| n2 == vs.first())).contains(n) by {
        let k = choose|k: int| 0 <= k < vs.len() && vs[k] == n;
        if k > 0 {
            assert(vs.drop_first()[k - 1] == n);
        }
    }
    assert forall|n: nat| (value_set(vs.drop_first()) + Set::new(|n2: nat| n2 == vs.first()))
        .contains(n) implies value_set(vs).contains(n) by {
        if value_set(vs.drop_first()).contains(n) {
            let k = choose|k: int| 0 <= k < vs.drop_first().len() && vs.drop_first()[k] == n;
            assert(vs[k + 1] == n);
        } else {
            assert(vs[0] == n);
        }
    }
}

/// Finds the first `c` in positions `p .. b` of `s`, or `b`.
pub fn find_char_before(s: &str, p: usize, b: usize, c: char) -> (i: usize)
    requires
        p <= b <= s@.len(),
    ensures
        i == spec_find_before(s@, p as int, b as int, c),
        p <= i <= b,
        i < b ==> s@[i as int] == c,
{
    let mut j: usize = p;
    while j < b
        invariant
            p <= j <= b <= s@.len(),
            spec_find_before(s@, p as int, b as int, c) == spec_find_before(
                s@,
                j as int,
                b as int,
                c,
            ),
        decreases b - j,
    {
        if s.get_char(j) == c {
            return j;
        }
        j += 1;
    }
    b
}

/// Appends every value the token in `a .. b` denotes.
fn push_token_values(s: &str, a: usize, b: usize, out: &mut Vec<usize>)
    requires
        a <= b <= s@.len(),
    ensures
        value_set(final(out)@) == value_set(old(out)@) + spec_token_values(
            s@,
            a as int,
            b as int,
        ),
{
    let ghost out0 = old(out)@;
    let d = find_char_before(s, a, b, '-');
    if d == b {
        match parse_decimal(s, a, b) {
            Some(v) => {
                let ghost before = out@;
                out.push(v);
                proof {
                    lemma_value_set_push(before, v);
                    crate::text::lemma_digits_val_prefix_le(s@.subrange(a as int, b as int), 0);
                    lemma_token_values_plain(s@, a as int, b as int);
                    assert(value_set(out@) =~= value_set(out0) + spec_token_values(
                        s@,
                        a as int,
                        b as int,
                    ));
                }
            },
            None => {
                proof {
                    lemma_token_values_empty_plain(s@, a as int, b as int);
                    assert(value_set(out@) =~= value_set(out0) + Set::<nat>::empty());
                }
            },
        }
    } else {
        let lo = parse_decimal(s, a, d);
        let hi = parse_decimal(s, d + 1, b);
        match (lo, hi) {
            (Some(lo), Some(hi)) => {
                proof {
                    crate::text::lemma_digits_val_prefix_le(s@.subrange(a as int, d as int), 0);
                    crate::text::lemma_digits_val_prefix_le(s@.subrange(d + 1, b as int), 0);
                    lemma_token_values_range(s@, a as int, b as int);
                }
                if lo > hi {
                    proof {
                        assert(spec_token_values(s@, a as int, b as int) =~= Set::<nat>::empty());
                        assert(value_set(out@) =~= value_set(out0) + Set::<nat>::empty());
                    }
                    return;
                }
                let mut n: usize = lo;
                loop
                    invariant_except_break
                        lo <= n <= hi,
                        value_set(out@) =~= value_set(out0) + Set::new(|v: nat| lo <= v < n),
                    ensures
                        value_set(out@) =~= value_set(out0) + Set::new(|v: nat| lo <= v <= hi),
                    decreases hi - n,
                {
                    let ghost before = out@;
                    out.push(n);
                    proof {
                        lemma_value_set_push(before, n);
                        assert(value_set(out@) =~= value_set(out0) + Set::new(
                            |v: nat| lo <= v <= n,
                        ));
                    }
                    if n == hi {
                        break;
                    }
                    n += 1;
                }
                proof {
                    lemma_token_values_range(s@, a as int, b as int);
                    assert(Set::new(|v: nat| lo <= v <= hi) =~= spec_token_values(
                        s@,
                        a as int,
                        b as int,
                    ));
                }
            },
            _ => {
                proof {
                    lemma_token_values_empty_range(s@, a as int, b as int);
                    assert(value_set(out@) =~= value_set(out0) + Set::<nat>::empty());
                }
            },
        }
    }
}


/// Collects the values denoted by every comma-separated token.
fn collect_range_values(s: &str) -> (out: Vec<usize>)
    ensures
        value_set(out@) == spec_denoted(s@),
{
    let len = s.unicode_len();
    let mut out: Vec<usize> = Vec::new();
    let mut p: usize = 0;
    proof {
        assert(value_set(out@) =~= Set::<nat>::empty());
        assert(Set::<nat>::empty() + spec_denoted_from(s@, 0) =~= spec_denoted_from(s@, 0));
    }
    loop
        invariant
            p <= len == s@.len(),
            spec_denoted(s@) =~= value_set(out@) + spec_denoted_from(s@, p as int),
        decreases len - p,
    {
        let ghost out_before = out@;
        let k = find_char_before(s, p, len, ',');
        push_token_values(s, p, k, &mut out);
        proof {
            assert(value_set(out@) =~= value_set(out_before) + spec_token_values(
                s@,
                p as int,
                k as int,
            ));
        }
        if k == len {
            proof {
                assert(spec_denoted_from(s@, p as int) == spec_token_values(
                    s@,
                    p as int,
                    k as int,
                ));
                assert(spec_denoted(s@) =~= value_set(out@) + Set::<nat>::empty());
                assert(value_set(out@) + Set::<nat>::empty() =~= value_set(out@));
            }
            return out;
        }
        proof {
            assert(spec_denoted_from(s@, p as int) == spec_token_values(s@, p as int, k as int)
                + spec_denoted_from(s@, k + 1));
            assert(value_set(out@) + spec_denoted_from(s@, k + 1) =~= value_set(out_before)
                + spec_denoted_from(s@, p as int));
        }
        p = k + 1;
    }
}

/// Sorts the collected values ascending and removes duplicates.
fn sorted_dedup(vals: Vec<usize>) -> (r: Vec<usize>)
    ensures
        strictly_sorted(r@),
        value_set(r@) == value_set(vals@),
{
    let ghost vals0 = vals@;
    let mut rest = vals;
    let mut out: Vec<usize> = Vec::new();
    proof {
        assert(value_set(out@) + value_set(vals0) =~= value_set(vals0));
    }
    while rest.len() > 0
        invariant
            strictly_sorted(out@),
            value_set(vals0) =~= value_set(out@) + value_set(rest@),
        decreases rest@.len(),
    {
        let ghost prev_rest = rest@;
        let v = rest.remove(0);
        proof {
            assert(rest@ =~= prev_rest.drop_first());
            lemma_value_set_drop_first(prev_rest);
            assert(value_set(prev_rest) =~= value_set(rest@) + Set::new(|n: nat| n == v));
        }
        let mut j: usize = 0;
        while j < out.len() && out[j] < v
            invariant
                0 <= j <= out@.len(),
                forall|k: int| 0 <= k < j ==> out@[k] < v,
            decreases out@.len() - j,
        {
            j += 1;
        }
        if j == out.len() || out[j] != v {
            let ghost out_before = out@;
            out.insert(j, v);
            proof {
                assert(out@ =~= out_before.insert(j as int, v));
                assert(strictly_sorted(out@)) by {
                    assert(forall|k: int| 0 <= k < j ==> out@[k] == out_before[k]);
                    assert(forall|k: int|
                        j < k < out@.len() ==> out@[k] == out_before[k - 1]);
                    assert(forall|k: int| j <= k < out_before.len() ==> out_before[k] >= v);
                    assert(forall|k: int| j <= k < out_before.len() ==> out_before[k] > v);
                }
                lemma_value_set_insert(out_before, j as int, v);
                assert(value_set(out@) =~= value_set(out_before) + Set::new(|n: nat| n == v));
            }
        } else {
            proof {
                assert(out@[j as int] == v);
                assert(value_set(out@) + Set::new(|n: nat| n == v) =~= value_set(out@));
            }
        }
        proof {
            assert(value_set(vals0) =~= value_set(out@) + value_set(rest@));
        }
    }
    proof {
        assert(value_set(rest@) =~= Set::<nat>::empty());
        assert(value_set(out@) + Set::<nat>::empty() =~= value_set(out@));
    }
    out
}

/// Parses an episode-range input such as "2-6,9" into the ascending,
/// duplicate-free list of the episode numbers it denotes.  Malformed
/// pieces denote nothing and are skipped.
pub fn string_to_range(input: &str) -> (r: Vec<usize>)
    ensures
        strictly_sorted(r@),
        forall|v: usize| r@.contains(v) <==> spec_denoted(input@).contains(v as nat),
{
    let vals = collect_range_values(input);
    let r = sorted_dedup(vals);
    proof {
        assert forall|v: usize| r@.contains(v) <==> spec_denoted(input@).contains(
            v as nat,
        ) by {
            assert(r@.contains(v) == value_set(r@).contains(v as nat));
        }
    }
    r
}

/// A keystroke offered to a prompt that accepts the characters of
/// `allowed`: the key itself when it is among them, nothing otherwise.
pub fn getch(allowed: &str, key: char) -> (r: Option<char>)
    ensures
        r == if allowed@.contains(key) {
            Some(key)
        } else {
            None::<char>
        },
{
    let len = allowed.unicode_len();
    let mut i: usize = 0;
    while i < len
        invariant
            0 <= i <= len == allowed@.len(),
            forall|k: int| 0 <= k < i ==> allowed@[k] != key,
        decreases len - i,
    {
        if allowed.get_char(i) == key {
            proof {
                assert(allowed@[i as int] == key);
            }
            return Some(key);
        }
        i += 1;
    }
    proof {
        assert(!allowed@.contains(key));
    }
    None
}

/// Picks the chosen entry out of a menu.
pub fn interactive_menuoption(options: Vec<MenuOptions>, selection: usize) -> (r: MenuOptions)
    requires
        selection < options@.len(),
    ensures
        r == options@[selection as int],
{
    let mut options = options;
    options.remove(selection)
}

/// The first unwatched episode, chosen when a selection is confirmed
/// with nothing typed.
pub fn default_selection(episodes: &Vec<Episode>) -> (r: Option<usize>)
    ensures
        r matches Some(i) ==> i < episodes@.len() && !episodes@[i as int].watched && forall|
            k: int,
        | 0 <= k < i ==> episodes@[k].watched,
        r is None ==> forall|k: int| 0 <= k < episodes@.len() ==> episodes@[k].watched,
{
    let mut i: usize = 0;
    while i < episodes.len()
        invariant
            0 <= i <= episodes@.len(),
            forall|k: int| 0 <= k < i ==> episodes@[k].watched,
        decreases episodes@.len() - i,
    {
        if !episodes[i].watched {
            return Some(i);
        }
        i += 1;
    }
    None
}

/// Interprets a finished series-selection round: nothing typed and
/// nothing selected goes back; a plain number plays from there; an
/// index list marks episodes with the chosen mode.
pub fn series_select_outcome(mode: SeriesOptions, input: &str, index_selection: Vec<usize>) -> (r:
    (SeriesOptions, Option<Vec<usize>>))
    ensures
        input@.len() == 0 && index_selection@.len() == 0 ==> r == (
            SeriesOptions::Back,
            None::<Vec<usize>>,
        ),
        index_selection@.len() > 0 ==> r.0 == mode && r.1 == Some(index_selection),
        input@.len() > 0 && index_selection@.len() == 0 ==> ({
            if spec_is_numeric(input@) && spec_digits_val(input@) <= usize::MAX {
                r.0 == mode && (r.1 matches Some(v) && v@ == seq![
                    spec_digits_val(input@) as usize,
                ])
            } else {
                r == (SeriesOptions::Back, None::<Vec<usize>>)
            }
        }),
{
    let len = input.unicode_len();
    if len == 0 && index_selection.len() == 0 {
        (SeriesOptions::Back, None)
    } else if index_selection.len() == 0 {
        match parse_decimal(input, 0, len) {
            Some(num) => {
                let mut v: Vec<usize> = Vec::new();
                v.push(num);
                proof {
                    assert(input@.subrange(0, input@.len() as int) =~= input@);
                    assert(v@ =~= seq![spec_digits_val(input@) as usize]);
                }
                (mode, Some(v))
            },
            None => {
                proof {
                    assert(input@.subrange(0, input@.len() as int) =~= input@);
                }
                (SeriesOptions::Back, None)
            },
        }
    } else {
        (mode, Some(index_selection))
    }
}


/// The episode rows a Plex series selection works on: one row per
/// flattened episode, carrying its title line and watched flag.
pub fn plex_series_select(series: crate::plex_items::Series) -> (r: Vec<Episode>)
    ensures
        ({
            let flat = crate::plex_items::spec_flatten_plex_seasons(series.seasons@);
            &&& r@.len() == flat.len()
            &&& forall|k: int|
                0 <= k < flat.len() ==> (#[trigger] r@[k]).title@
                    == crate::plex_items::spec_plex_title(flat[k]) && r@[k].watched == (
                flat[k].viewCount is Some)
        }),
{
    let ghost flat0 = crate::plex_items::spec_flatten_plex_seasons(series.seasons@);
    let mut rest = crate::plex_items::flatten_plex_series(series);
    let mut rows: Vec<Episode> = Vec::new();
    while rest.len() > 0
        invariant
            rows@.len() + rest@.len() == flat0.len(),
            rest@ =~= flat0.skip(rows@.len() as int),
            forall|k: int|
                0 <= k < rows@.len() ==> (#[trigger] rows@[k]).title@
                    == crate::plex_items::spec_plex_title(flat0[k]) && rows@[k].watched == (
                flat0[k].viewCount is Some),
        decreases rest@.len(),
    {
        let ghost prev_rest = rest@;
        let ghost i = rows@.len() as int;
        let e = rest.remove(0);
        proof {
            assert(rest@ =~= prev_rest.drop_first());
            assert(e == flat0[i]);
        }
        let title = crate::plex_items::plex_title(&e);
        let watched = e.viewCount.is_some();
        rows.push(Episode { title, watched });
        proof {
            assert(rest@ =~= flat0.skip(rows@.len() as int));
        }
    }
    rows
}

/// The episode rows a Jellyfin or Emby series selection works on: one
/// row per flattened episode, carrying its title line and played flag.
pub fn jelly_series_select(series: crate::series::Series) -> (r: Vec<Episode>)
    ensures
        ({
            let flat = crate::series::spec_flatten_seasons(series.seasons@);
            &&& r@.len() == flat.len()
            &&& forall|k: int|
                0 <= k < flat.len() ==> (#[trigger] r@[k]).title@
                    == crate::display::spec_item_title(flat[k]) && r@[k].watched == flat[
                k].UserData.Played
        }),
{
    let ghost flat0 = crate::series::spec_flatten_seasons(series.seasons@);
    let mut rest = crate::series::flatten_series(series);
    let mut rows: Vec<Episode> = Vec::new();
    while rest.len() > 0
        invariant
            rows@.len() + rest@.len() == flat0.len(),
            rest@ =~= flat0.skip(rows@.len() as int),
            forall|k: int|
                0 <= k < rows@.len() ==> (#[trigger] rows@[k]).title@
                    == crate::display::spec_item_title(flat0[k]) && rows@[k].watched == flat0[
                k].UserData.Played,
        decreases rest@.len(),
    {
        let ghost prev_rest = rest@;
        let ghost i = rows@.len() as int;
        let e = rest.remove(0);
        proof {
            assert(rest@ =~= prev_rest.drop_first());
            assert(e == flat0[i]);
        }
        let title = crate::display::item_title(&e);
        let watched = e.UserData.Played;
        rows.push(Episode { title, watched });
        proof {
            assert(rest@ =~= flat0.skip(rows@.len() as int));
        }
    }
    rows
}

} // verus!
