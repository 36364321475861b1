//! Compiling titles, dates and playback state into the display strings
//! the menus and the player title bar show.

use vstd::prelude::*;

use crate::items::Item;
use crate::items::spec_is_ascii_digit;
use crate::text::decimal_string;
use crate::text::spec_decimal;
use crate::text::spec_zero_padded;
use crate::text::zero_padded_string;

verus! {

/// Whether a ` (dddd)` year suffix stands at position `i`.
pub open spec fn spec_year_paren_at(s: Seq<char>, i: int) -> bool {
    &&& 0 <= i && i + 7 <= s.len()
    &&& s[i] == ' '
    &&& s[i + 1] == '('
    &&& spec_is_ascii_digit(s[i + 2])
    &&& spec_is_ascii_digit(s[i + 3])
    &&& spec_is_ascii_digit(s[i + 4])
    &&& spec_is_ascii_digit(s[i + 5])
    &&& s[i + 6] == ')'
}

/// A title with every ` (dddd)` year suffix removed, leftmost first.
pub open spec fn spec_strip_years(s: Seq<char>) -> Seq<char>
    decreases s.len(),
{
    if s.len() == 0 {
        s
    } else if spec_year_paren_at(s, 0) {
        spec_strip_years(s.skip(7))
    } else {
        seq![s.first()] + spec_strip_years(s.drop_first())
    }
}

/// Whether a year suffix stands at `i`, decided by characters.
fn year_paren_at(s: &str, i: usize, len: usize) -> (r: bool)
    requires
        len == s@.len(),
        i < len,
    ensures
        r == spec_year_paren_at(s@, i as int),
{
    if len - i < 7 {
        return false;
    }
    let c2 = s.get_char(i + 2);
    let c3 = s.get_char(i + 3);
    let c4 = s.get_char(i + 4);
    let c5 = s.get_char(i + 5);
    s.get_char(i) == ' ' && s.get_char(i + 1) == '(' && ('0' <= c2 && c2 <= '9') && ('0' <= c3
        && c3 <= '9') && ('0' <= c4 && c4 <= '9') && ('0' <= c5 && c5 <= '9') && s.get_char(i + 6)
        == ')'
}

/// Removes every ` (dddd)` year suffix from a title, so a name that
/// already carries its year is not shown with it twice.
pub fn strip_years(s: &str) -> (r: String)
    ensures
        r@ == spec_strip_years(s@),
{
    let len = s.unicode_len();
    let mut out = String::new();
    let mut i: usize = 0;
    proof {
        assert(s@.skip(0) =~= s@);
        assert(out@ + spec_strip_years(s@) =~= spec_strip_years(s@));
    }
    while i < len
        invariant
            0 <= i <= len == s@.len(),
            spec_strip_years(s@) == out@ + spec_strip_years(s@.skip(i as int)),
        decreases len - i,
    {
        let ghost prev_out = out@;
        proof {
            assert(s@.skip(i as int).first() == s@[i as int]);
            assert(s@.skip(i as int).drop_first() =~= s@.skip(i + 1));
            assert forall|d: int| 0 <= d < 7 implies i + 7 <= s@.len() ==> s@.skip(i as int)[d]
                == s@[i + d] by {}
        }
        if year_paren_at(s, i, len) {
            proof {
                assert(spec_year_paren_at(s@.skip(i as int), 0));
                assert(s@.skip(i as int).skip(7) =~= s@.skip(i + 7));
            }
            i += 7;
        } else {
            proof {
                assert(!spec_year_paren_at(s@.skip(i as int), 0));
            }
            let piece = s.substring_char(i, i + 1);
            out.append(piece);
            proof {
                assert(out@ =~= prev_out + seq![s@[i as int]]);
                assert(out@ + spec_strip_years(s@.skip(i + 1)) =~= prev_out + spec_strip_years(
                    s@.skip(i as int),
                ));
            }
            i += 1;
        }
    }
    proof {
        assert(s@.skip(len as int) =~= Seq::<char>::empty());
        assert(spec_strip_years(s@.skip(len as int)) =~= Seq::<char>::empty());
        assert(out@ + Seq::<char>::empty() =~= out@);
    }
    out
}

/// The four-digit year opening a date string, or question marks when
/// the date is too short to carry one.
pub open spec fn spec_year4(d: Seq<char>) -> Seq<char> {
    if d.len() >= 4 {
        d.take(4)
    } else {
        "????"@
    }
}

/// Reads the year out of a date string.
fn year4(d: &str) -> (r: &str)
    ensures
        r@ == spec_year4(d@),
{
    let len = d.unicode_len();
    if len >= 4 {
        d.substring_char(0, 4)
    } else {
        "????"
    }
}

/// The parenthesised time label of an item: a year, a year range, an
/// open range for a continuing series, a production year, or `(???)`.
pub open spec fn spec_time_label(item: Item) -> Seq<char> {
    match (item.PremiereDate, item.EndDate) {
        (Some(start), Some(end)) => {
            if spec_year4(start@) == spec_year4(end@) {
                "("@ + spec_year4(start@) + ")"@
            } else {
                "("@ + spec_year4(start@) + "-"@ + spec_year4(end@) + ")"@
            }
        },
        _ => {
            if item.Status matches Some(s) && s@ == "Continuing"@ {
                "("@ + (match item.PremiereDate {
                    Some(p) => spec_year4(p@),
                    None => "????"@,
                }) + "-)"@
            } else {
                match (item.PremiereDate, item.ProductionYear) {
                    (Some(p), _) => "("@ + spec_year4(p@) + ")"@,
                    (None, Some(y)) => "("@ + spec_decimal(y as int) + ")"@,
                    (None, None) => "(???)"@,
                }
            }
        },
    }
}

/// Builds the parenthesised time label of an item.
pub fn time_label(item: &Item) -> (r: String)
    ensures
        r@ == spec_time_label(*item),
{
    match (&item.PremiereDate, &item.EndDate) {
        (Some(start), Some(end)) => {
            let sy = year4(start.as_str());
            let ey = year4(end.as_str());
            let sy_owned = String::from_str(sy);
            let ey_owned = String::from_str(ey);
            let mut r = String::from_str("(");
            r.append(sy);
            if !(sy_owned == ey_owned) {
                r.append("-");
                r.append(ey);
            }
            r.append(")");
            r
        },
        _ => {
            let continuing = match &item.Status {
                Some(s) => {
                    let c = String::from_str("Continuing");
                    *s == c
                },
                None => false,
            };
            if continuing {
                let mut r = String::from_str("(");
                match &item.PremiereDate {
                    Some(p) => {
                        let y = year4(p.as_str());
                        r.append(y);
                    },
                    None => {
                        r.append("????");
                    },
                }
                r.append("-)");
                r
            } else if let Some(p) = &item.PremiereDate {
                let mut r = String::from_str("(");
                r.append(year4(p.as_str()));
                r.append(")");
                r
            } else if let Some(y) = item.ProductionYear {
                let mut r = String::from_str("(");
                let year = decimal_string(y as u64);
                r.append(year.as_str());
                r.append(")");
                r
            } else {
                String::from_str("(???)")
            }
        },
    }
}

/// The name an item is listed under: episodes and seasons go by their
/// series name, everything else by its own, with year suffixes
/// stripped.
pub open spec fn spec_display_name(item: Item) -> Seq<char> {
    let raw = if item.Type@ == "Season"@ || item.Type@ == "Episode"@ {
        match item.SeriesName {
            Some(n) => n@,
            None => "???"@,
        }
    } else {
        item.Name@
    };
    spec_strip_years(raw)
}

/// Resolves the name an item is listed under.
pub fn display_name(item: &Item) -> (r: String)
    ensures
        r@ == spec_display_name(*item),
{
    let season = String::from_str("Season");
    let episode = String::from_str("Episode");
    if item.Type == season || item.Type == episode {
        match &item.SeriesName {
            Some(n) => strip_years(n.as_str()),
            None => strip_years("???"),
        }
    } else {
        strip_years(item.Name.as_str())
    }
}

/// The `S01E02` style episode code, with an optional end index for a
/// multi-episode file.
pub open spec fn spec_episode_code(parent: int, index: int, end: Option<u32>) -> Seq<char> {
    let base = "S"@ + spec_zero_padded(parent, 2) + "E"@ + spec_zero_padded(index, 2);
    match end {
        Some(e) => base + "-"@ + spec_zero_padded(e as int, 2),
        None => base,
    }
}

/// Builds the `S01E02` style episode code.
pub fn episode_code(parent: u32, index: u32, end: Option<u32>) -> (r: String)
    ensures
        r@ == spec_episode_code(parent as int, index as int, end),
{
    let mut r = String::from_str("S");
    let p = zero_padded_string(parent as u64, 2);
    r.append(p.as_str());
    r.append("E");
    let i = zero_padded_string(index as u64, 2);
    r.append(i.as_str());
    match end {
        Some(e) => {
            r.append("-");
            let e_str = zero_padded_string(e as u64, 2);
            r.append(e_str.as_str());
        },
        None => {},
    }
    r
}

/// The full title line of an item: name and time label, a season or
/// episode qualified by its place in the series.
pub open spec fn spec_item_title(item: Item) -> Seq<char> {
    let name = spec_display_name(item);
    let time = spec_time_label(item);
    if item.Type@ == "Movie"@ || item.Type@ == "Series"@ {
        name + " "@ + time
    } else if item.Type@ == "Season"@ {
        name + " "@ + time + " - "@ + item.Name@
    } else if item.Type@ == "Episode"@ {
        name + " "@ + time + " - "@ + spec_episode_code(
            match item.ParentIndexNumber {
                Some(p) => p as int,
                None => 0,
            },
            match item.IndexNumber {
                Some(i) => i as int,
                None => 0,
            },
            item.IndexNumberEnd,
        ) + " - "@ + item.Name@
    } else {
        item.Name@ + " "@ + time + " (unknown media type)"@
    }
}

/// Builds the full title line of an item.
pub fn item_title(item: &Item) -> (r: String)
    ensures
        r@ == spec_item_title(*item),
{
    let mut r = display_name(item);
    let time = time_label(item);
    let movie = String::from_str("Movie");
    let series = String::from_str("Series");
    let season = String::from_str("Season");
    let episode = String::from_str("Episode");
    if item.Type == movie || item.Type == series {
        r.append(" ");
        r.append(time.as_str());
        r
    } else if item.Type == season {
        r.append(" ");
        r.append(time.as_str());
        r.append(" - ");
        r.append(item.Name.as_str());
        r
    } else if item.Type == episode {
        r.append(" ");
        r.append(time.as_str());
        r.append(" - ");
        let code = episode_code(
            match item.ParentIndexNumber {
                Some(p) => p,
                None => 0,
            },
            match item.IndexNumber {
                Some(i) => i,
                None => 0,
            },
            item.IndexNumberEnd,
        );
        r.append(code.as_str());
        r.append(" - ");
        r.append(item.Name.as_str());
        r
    } else {
        let mut o = String::from_str(item.Name.as_str());
        o.append(" ");
        o.append(time.as_str());
        o.append(" (unknown media type)");
        o
    }
}

/// The title line with a played marker.
pub open spec fn spec_item_title_full(item: Item) -> Seq<char> {
    if item.UserData.Played {
        spec_item_title(item) + " - (Played)"@
    } else {
        spec_item_title(item)
    }
}

/// The title line with played marker and watched percentage.
pub open spec fn spec_item_title_ext(item: Item) -> Seq<char> {
    match item.UserData.PlayedPercentage {
        Some(p) => spec_item_title_full(item) + " "@ + spec_decimal(p as int) + "%"@,
        None => spec_item_title_full(item),
    }
}

/// The title of an item in the parts the player title bar uses: the
/// full line, then the name and time line, then — for seasons and
/// episodes — their own short label.
pub open spec fn spec_item_title_parts(item: Item) -> Seq<Seq<char>> {
    let name_time = spec_display_name(item) + " "@ + spec_time_label(item);
    if item.Type@ == "Season"@ {
        seq![spec_item_title(item), name_time, item.Name@]
    } else if item.Type@ == "Episode"@ {
        seq![
            spec_item_title(item),
            name_time,
            spec_episode_code(
                match item.ParentIndexNumber {
                    Some(p) => p as int,
                    None => 0,
                },
                match item.IndexNumber {
                    Some(i) => i as int,
                    None => 0,
                },
                item.IndexNumberEnd,
            ) + " ("@ + item.Name@ + ")"@,
        ]
    } else {
        seq![spec_item_title(item)]
    }
}

/// Provides the title of an item in the forms the menus show:
/// `to_string_split` breaks it into parts for the player title bar,
/// `to_string_full` adds a played marker, and `to_string_ext` adds the
/// watched percentage on top.
pub trait ToStringAdv {
    fn to_string_split(&self) -> Vec<String>;

    fn to_string_full(&self) -> String;

    fn to_string_ext(&self) -> String;
}

impl ToStringAdv for Item {
    /// The title in parts: the full line first, then the name and time
    /// line, then — for seasons and episodes — their own short label.
    fn to_string_split(&self) -> (r: Vec<String>)
        ensures
            r@.map_values(|s: String| s@) == spec_item_title_parts(*self),
    {
        let mut out: Vec<String> = Vec::new();
        let season = String::from_str("Season");
        let episode = String::from_str("Episode");
        out.push(item_title(self));
        if self.Type == season {
            let mut name_line = display_name(self);
            let time = time_label(self);
            name_line.append(" ");
            name_line.append(time.as_str());
            out.push(name_line);
            out.push(self.Name.clone());
        } else if self.Type == episode {
            let mut name_line = display_name(self);
            let time = time_label(self);
            name_line.append(" ");
            name_line.append(time.as_str());
            out.push(name_line);
            let mut code_line = episode_code(
                match self.ParentIndexNumber {
                    Some(p) => p,
                    None => 0,
                },
                match self.IndexNumber {
                    Some(i) => i,
                    None => 0,
                },
                self.IndexNumberEnd,
            );
            code_line.append(" (");
            code_line.append(self.Name.as_str());
            code_line.append(")");
            out.push(code_line);
        }
        proof {
            assert(out@.map_values(|s: String| s@) =~= spec_item_title_parts(*self));
        }
        out
    }

    /// The title line, with a played marker when the item is played.
    fn to_string_full(&self) -> (r: String)
        ensures
            r@ == spec_item_title_full(*self),
    {
        let mut r = item_title(self);
        if self.UserData.Played {
            r.append(" - (Played)");
        }
        r
    }

    /// The title line with played marker and watched percentage.
    fn to_string_ext(&self) -> (r: String)
        ensures
            r@ == spec_item_title_ext(*self),
    {
        let mut r = self.to_string_full();
        match self.UserData.PlayedPercentage {
            Some(p) => {
                r.append(" ");
                let pct = decimal_string(p as u64);
                r.append(pct.as_str());
                r.append("%");
            },
            None => {},
        }
        r
    }
}

} // verus!
