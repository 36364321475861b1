//! Series resolution: ordering the seasons a server returned, removing
//! cross-listed duplicate episodes, dropping empty seasons, and
//! flattening the result into the ordered playlist the player walks.

use vstd::prelude::*;

use crate::items::Item;
use crate::display::ToStringAdv;

verus! {

/// One season of a resolved series: the season item itself and its
/// episodes in playback order.
#[derive(Clone, Debug)]
pub struct Season {
    pub item: Item,
    pub episodes: Vec<Item>,
}

/// A resolved series: the series id and its seasons in playback order.
#[derive(Clone, Debug)]
pub struct Series {
    pub item_id: String,
    pub seasons: Vec<Season>,
}

/// The views of a sequence of id strings.
pub open spec fn string_views(ss: Seq<String>) -> Seq<Seq<char>> {
    ss.map_values(|s: String| s@)
}

/// The ids of a sequence of items.
pub open spec fn item_ids(eps: Seq<Item>) -> Seq<Seq<char>> {
    eps.map_values(|e: Item| e.Id@)
}

/// The episodes of `eps` whose id is neither in `seen` nor carried by an
/// earlier episode of `eps`: cross-listed items are kept at their first
/// position only.
pub open spec fn spec_dedup_from(eps: Seq<Item>, seen: Seq<Seq<char>>) -> Seq<Item>
    decreases eps.len(),
{
    if eps.len() == 0 {
        Seq::empty()
    } else if seen.contains(eps.first().Id@) {
        spec_dedup_from(eps.drop_first(), seen)
    } else {
        seq![eps.first()] + spec_dedup_from(eps.drop_first(), seen.push(eps.first().Id@))
    }
}

/// The seasons a resolved series owes for the given season items and
/// their fetched episode lists: episodes deduplicated by id across the
/// whole series, and seasons left empty by that dropped.
pub open spec fn spec_assemble(
    seasons: Seq<Item>,
    lists: Seq<Seq<Item>>,
    seen: Seq<Seq<char>>,
) -> Seq<(Item, Seq<Item>)>
    decreases seasons.len(),
{
    if seasons.len() == 0 || lists.len() == 0 {
        Seq::empty()
    } else {
        let kept = spec_dedup_from(lists.first(), seen);
        let rest = spec_assemble(
            seasons.drop_first(),
            lists.drop_first(),
            seen + item_ids(kept),
        );
        if kept.len() == 0 {
            rest
        } else {
            seq![(seasons.first(), kept)] + rest
        }
    }
}

/// The view of a built season list as pairs of season item and episode
/// sequence.
pub open spec fn seasons_view(ss: Seq<Season>) -> Seq<(Item, Seq<Item>)> {
    ss.map_values(|s: Season| (s.item, s.episodes@))
}

/// The flattened, playback-ordered episode list of a season sequence.
pub open spec fn spec_flatten_seasons(ss: Seq<Season>) -> Seq<Item>
    decreases ss.len(),
{
    if ss.len() == 0 {
        Seq::empty()
    } else {
        ss.first().episodes@ + spec_flatten_seasons(ss.drop_first())
    }
}

/// Whether one of the seen id strings has this view.
fn contains_string(seen: &Vec<String>, id: &String) -> (b: bool)
    ensures
        b == string_views(seen@).contains(id@),
{
    let mut j: usize = 0;
    while j < seen.len()
        invariant
            0 <= j <= seen@.len(),
            forall|k: int| 0 <= k < j ==> string_views(seen@)[k] != id@,
        decreases seen@.len() - j,
    {
        assert(string_views(seen@)[j as int] == seen@[j as int]@);
        if seen[j] == *id {
            return true;
        }
        j += 1;
    }
    false
}

/// Keeps the episodes of `list` whose id has not been seen yet, in
/// order, and records their ids in `seen`.
pub fn dedup_episodes(list: Vec<Item>, seen: &mut Vec<String>) -> (kept: Vec<Item>)
    ensures
        kept@ == spec_dedup_from(list@, string_views(old(seen)@)),
        string_views(final(seen)@) == string_views(old(seen)@) + item_ids(kept@),
{
    let ghost list0 = list@;
    let ghost seen0 = string_views(seen@);
    let mut rest = list;
    let mut kept: Vec<Item> = Vec::new();
    while rest.len() > 0
        invariant
            spec_dedup_from(list0, seen0) == kept@ + spec_dedup_from(rest@, string_views(seen@)),
            string_views(seen@) == seen0 + item_ids(kept@),
        decreases rest@.len(),
    {
        let ghost prev_rest = rest@;
        let ghost cur_seen = string_views(seen@);
        let e = rest.remove(0);
        assert(rest@ =~= prev_rest.drop_first());
        assert(e == prev_rest.first());
        if contains_string(seen, &e.Id) {
            assert(spec_dedup_from(prev_rest, cur_seen) == spec_dedup_from(
                rest@,
                string_views(seen@),
            ));
        } else {
            let ghost prev_kept = kept@;
            let id = e.Id.clone();
            kept.push(e);
            seen.push(id);
            proof {
                assert(string_views(seen@) =~= cur_seen.push(prev_rest.first().Id@));
                assert(item_ids(kept@) =~= item_ids(prev_kept).push(prev_rest.first().Id@));
                assert(string_views(seen@) =~= seen0 + item_ids(kept@));
                assert(spec_dedup_from(prev_rest, cur_seen) == seq![prev_rest.first()]
                    + spec_dedup_from(rest@, string_views(seen@)));
                assert(kept@ + spec_dedup_from(rest@, string_views(seen@)) =~= prev_kept
                    + spec_dedup_from(prev_rest, cur_seen));
            }
        }
    }
    assert(spec_dedup_from(rest@, string_views(seen@)) =~= Seq::<Item>::empty());
    assert(kept@ =~= kept@ + Seq::<Item>::empty());
    kept
}

/// Moves a season named "Specials" from the front of the fetched season
/// list to its end, so special episodes play after the regular seasons.
pub fn order_seasons(seasons: Vec<Item>) -> (r: Vec<Item>)
    ensures
        r@ == if seasons@.len() > 0 && seasons@.first().Name@ == "Specials"@ {
            seasons@.drop_first().push(seasons@.first())
        } else {
            seasons@
        },
{
    let ghost seasons0 = seasons@;
    let mut seasons = seasons;
    if seasons.len() > 0 {
        let specials = String::from_str("Specials");
        if seasons[0].Name == specials {
            let first = seasons.remove(0);
            assert(seasons@ =~= seasons0.drop_first());
            seasons.push(first);
        }
    }
    seasons
}

/// Builds the resolved series from the (already ordered) season items
/// and the episode list fetched for each: episodes are deduplicated by
/// id across the whole series and seasons left empty are dropped.
pub fn assemble_series(item_id: String, season_items: Vec<Item>, episode_lists: Vec<Vec<Item>>) -> (s:
    Series)
    requires
        season_items@.len() == episode_lists@.len(),
    ensures
        s.item_id == item_id,
        seasons_view(s.seasons@) == spec_assemble(
            season_items@,
            episode_lists@.map_values(|v: Vec<Item>| v@),
            Seq::empty(),
        ),
{
    let ghost seasons0 = season_items@;
    let ghost lists0 = episode_lists@.map_values(|v: Vec<Item>| v@);
    let mut rest_seasons = season_items;
    let mut rest_lists = episode_lists;
    let mut seen: Vec<String> = Vec::new();
    let mut built: Vec<Season> = Vec::new();
    proof {
        assert(seasons_view(built@) =~= Seq::<(Item, Seq<Item>)>::empty());
        assert(string_views(seen@) =~= Seq::<Seq<char>>::empty());
        assert(rest_lists@.map_values(|v: Vec<Item>| v@) =~= lists0);
        assert(Seq::<(Item, Seq<Item>)>::empty() + spec_assemble(seasons0, lists0, Seq::empty())
            =~= spec_assemble(seasons0, lists0, Seq::empty()));
    }
    while rest_seasons.len() > 0 && rest_lists.len() > 0
        invariant
            rest_seasons@.len() == rest_lists@.len(),
            spec_assemble(seasons0, lists0, Seq::empty()) == seasons_view(built@) + spec_assemble(
                rest_seasons@,
                rest_lists@.map_values(|v: Vec<Item>| v@),
                string_views(seen@),
            ),
        decreases rest_seasons@.len(),
    {
        let ghost prev_seasons = rest_seasons@;
        let ghost prev_lists = rest_lists@.map_values(|v: Vec<Item>| v@);
        let ghost prev_seen = string_views(seen@);
        let season_item = rest_seasons.remove(0);
        let list = rest_lists.remove(0);
        assert(rest_seasons@ =~= prev_seasons.drop_first());
        assert(rest_lists@.map_values(|v: Vec<Item>| v@) =~= prev_lists.drop_first());
        assert(list@ == prev_lists.first());
        let ghost prev_built = built@;
        let kept = dedup_episodes(list, &mut seen);
        if kept.len() > 0 {
            let ghost kept_view = kept@;
            let ghost new_item = season_item;
            built.push(Season { item: season_item, episodes: kept });
            proof {
                assert(seasons_view(built@) =~= seasons_view(prev_built).push(
                    (new_item, kept_view),
                ));
                assert(seasons_view(prev_built) + spec_assemble(
                    prev_seasons,
                    prev_lists,
                    prev_seen,
                ) =~= seasons_view(built@) + spec_assemble(
                    rest_seasons@,
                    rest_lists@.map_values(|v: Vec<Item>| v@),
                    string_views(seen@),
                ));
            }
        }
    }
    assert(spec_assemble(
        rest_seasons@,
        rest_lists@.map_values(|v: Vec<Item>| v@),
        string_views(seen@),
    ) =~= Seq::<(Item, Seq<Item>)>::empty());
    assert(seasons_view(built@) =~= seasons_view(built@) + Seq::<(Item, Seq<Item>)>::empty());
    Series { item_id, seasons: built }
}

/// Flattens a resolved series into its playback-ordered episode list.
pub fn flatten_series(series: Series) -> (v: Vec<Item>)
    ensures
        v@ == spec_flatten_seasons(series.seasons@),
{
    let ghost seasons0 = series.seasons@;
    let mut rest = series.seasons;
    let mut out: Vec<Item> = Vec::new();
    while rest.len() > 0
        invariant
            spec_flatten_seasons(seasons0) == out@ + spec_flatten_seasons(rest@),
        decreases rest@.len(),
    {
        let ghost prev_rest = rest@;
        let season = rest.remove(0);
        assert(rest@ =~= prev_rest.drop_first());
        assert(season == prev_rest.first());
        let ghost out_start = out@;
        let ghost eps0 = season.episodes@;
        let mut eps = season.episodes;
        while eps.len() > 0
            invariant
                out@ + eps@ == out_start + eps0,
            decreases eps@.len(),
        {
            let ghost prev_eps = eps@;
            let e = eps.remove(0);
            assert(eps@ =~= prev_eps.drop_first());
            out.push(e);
            assert(out@ + eps@ =~= out_start + eps0);
        }
        assert(out@ =~= out_start + eps0);
        assert(out_start + spec_flatten_seasons(prev_rest) =~= out@ + spec_flatten_seasons(rest@));
    }
    assert(spec_flatten_seasons(rest@) =~= Seq::<Item>::empty());
    assert(out@ =~= out@ + Seq::<Item>::empty());
    out
}

/// Drops the first `n` items of a playlist vector; with `n` past the
/// end, nothing is left.
pub fn drop_front(v: Vec<Item>, n: usize) -> (r: Vec<Item>)
    ensures
        r@ == if n <= v@.len() {
            v@.skip(n as int)
        } else {
            Seq::<Item>::empty()
        },
{
    let ghost v0 = v@;
    let mut v = v;
    let mut k: usize = 0;
    if n >= v.len() {
        v.clear();
        return v;
    }
    while k < n
        invariant
            k <= n <= v0.len(),
            v@ =~= v0.skip(k as int),
        decreases n - k,
    {
        let ghost prev = v@;
        let _ = v.remove(0);
        assert(v@ =~= prev.drop_first());
        k += 1;
        assert(v@ =~= v0.skip(k as int));
    }
    v
}

/// The playlist started from flattened position `selection`: that
/// episode and everything after it; an out-of-range selection yields an
/// empty playlist.
pub fn episodes_from_index(series: Series, selection: usize) -> (v: Vec<Item>)
    ensures
        v@ == if selection <= spec_flatten_seasons(series.seasons@).len() {
            spec_flatten_seasons(series.seasons@).skip(selection as int)
        } else {
            Seq::<Item>::empty()
        },
{
    let flat = flatten_series(series);
    drop_front(flat, selection)
}

/// The flattened position of the first episode carrying this id; the
/// length of the list when no episode does.
pub open spec fn spec_first_index_with_id(flat: Seq<Item>, id: Seq<char>) -> int
    decreases flat.len(),
{
    if flat.len() == 0 {
        0
    } else if flat.first().Id@ == id {
        0
    } else {
        1 + spec_first_index_with_id(flat.drop_first(), id)
    }
}

/// The playlist started from the episode with the given id: the first
/// episode carrying that id and everything after it; an unknown id
/// yields an empty playlist.
#[verifier::loop_isolation(false)]
pub fn playlist_from_episode(series: Series, episode_id: &String) -> (v: Vec<Item>)
    ensures
        ({
            let flat = spec_flatten_seasons(series.seasons@);
            v@ == flat.skip(spec_first_index_with_id(flat, episode_id@))
        }),
{
    let ghost flat_spec = spec_flatten_seasons(series.seasons@);
    let flat = flatten_series(series);
    let mut i: usize = 0;
    proof {
        assert(flat_spec.skip(0) =~= flat_spec);
    }
    while i < flat.len()
        invariant
            0 <= i <= flat@.len(),
            flat@ == flat_spec,
            spec_first_index_with_id(flat_spec, episode_id@) == i + spec_first_index_with_id(
                flat_spec.skip(i as int),
                episode_id@,
            ),
        decreases flat@.len() - i,
    {
        let ghost iv = i as int;
        proof {
            assert(flat_spec.skip(iv).first() == flat_spec[iv]);
            assert(flat_spec.skip(iv).drop_first() =~= flat_spec.skip(iv + 1));
        }
        if flat[i].Id == *episode_id {
            assert(spec_first_index_with_id(flat_spec.skip(iv), episode_id@) == 0);
            assert(spec_first_index_with_id(flat_spec, episode_id@) == iv);
            let r = drop_front(flat, i);
            return r;
        }
        i += 1;
    }
    proof {
        assert(flat_spec.skip(flat_spec.len() as int) =~= Seq::<Item>::empty());
        assert(spec_first_index_with_id(flat_spec, episode_id@) == flat_spec.len());
        assert(flat_spec.skip(spec_first_index_with_id(flat_spec, episode_id@)) =~= Seq::<
            Item,
        >::empty());
    }
    Vec::new()
}

/// Whether a flattened position is among the selected indexes.
pub open spec fn idx_selected(idxs: Seq<usize>, pos: int) -> bool {
    exists|k: int| 0 <= k < idxs.len() && idxs[k] == pos
}

/// The ids of the flattened episodes standing at the selected positions,
/// from position `pos` on.
pub open spec fn spec_selected_ids(flat: Seq<Item>, idxs: Seq<usize>, pos: int) -> Seq<Seq<char>>
    decreases flat.len(),
{
    if flat.len() == 0 {
        Seq::empty()
    } else {
        let rest = spec_selected_ids(flat.drop_first(), idxs, pos + 1);
        if idx_selected(idxs, pos) {
            seq![flat.first().Id@] + rest
        } else {
            rest
        }
    }
}

/// Whether `pos` occurs in the index vector.
fn contains_index(idxs: &Vec<usize>, pos: usize) -> (b: bool)
    ensures
        b == idx_selected(idxs@, pos as int),
{
    let mut k: usize = 0;
    while k < idxs.len()
        invariant
            0 <= k <= idxs@.len(),
            forall|j: int| 0 <= j < k ==> idxs@[j] != pos,
        decreases idxs@.len() - k,
    {
        if idxs[k] == pos {
            return true;
        }
        k += 1;
    }
    false
}

/// The ids of the episodes standing at the given flattened positions of
/// the series; used to mark a range of episodes played or unplayed.
pub fn selected_episode_ids(series: Series, indexes: &Vec<usize>) -> (ids: Vec<String>)
    ensures
        string_views(ids@) == spec_selected_ids(
            spec_flatten_seasons(series.seasons@),
            indexes@,
            0,
        ),
{
    let ghost flat_spec = spec_flatten_seasons(series.seasons@);
    let mut rest = flatten_series(series);
    let total: usize = rest.len();
    let mut ids: Vec<String> = Vec::new();
    let mut pos: usize = 0;
    proof {
        assert(string_views(ids@) =~= Seq::<Seq<char>>::empty());
        assert(Seq::<Seq<char>>::empty() + spec_selected_ids(flat_spec, indexes@, 0)
            =~= spec_selected_ids(flat_spec, indexes@, 0));
    }
    while rest.len() > 0
        invariant
            spec_selected_ids(flat_spec, indexes@, 0) == string_views(ids@) + spec_selected_ids(
                rest@,
                indexes@,
                pos as int,
            ),
            pos + rest@.len() == total,
        decreases rest@.len(),
    {
        let ghost prev_rest = rest@;
        let ghost prev_ids = ids@;
        let e = rest.remove(0);
        assert(rest@ =~= prev_rest.drop_first());
        assert(e == prev_rest.first());
        if contains_index(indexes, pos) {
            ids.push(e.Id);
            proof {
                assert(string_views(ids@) =~= string_views(prev_ids).push(prev_rest.first().Id@));
                assert(string_views(prev_ids) + spec_selected_ids(prev_rest, indexes@, pos as int)
                    =~= string_views(ids@) + spec_selected_ids(rest@, indexes@, pos + 1));
            }
        }
        pos += 1;
    }
    assert(spec_selected_ids(rest@, indexes@, pos as int) =~= Seq::<Seq<char>>::empty());
    assert(string_views(ids@) =~= string_views(ids@) + Seq::<Seq<char>>::empty());
    ids
}


/// The drawing prefix of a season line.
pub open spec fn spec_season_prefix(last: bool) -> Seq<char> {
    if last {
        "  └─ "@
    } else {
        "  ├─ "@
    }
}

/// The drawing prefix of an episode line: the season's continuation
/// column and the episode's branch.
pub open spec fn spec_episode_prefix(last_season: bool, last_episode: bool) -> Seq<char> {
    (if last_season {
        "       "@
    } else {
        "  │    "@
    }) + (if last_episode {
        "└── "@
    } else {
        "├── "@
    })
}

/// One line of the series tree for each episode of a season: the
/// drawing prefix, the zero-padded flattened index and the episode's
/// extended title.
pub open spec fn spec_tree_episode_lines(
    eps: Seq<Item>,
    last_season: bool,
    start: int,
    width: int,
) -> Seq<Seq<char>>
    decreases eps.len(),
{
    if eps.len() == 0 {
        Seq::empty()
    } else {
        seq![
            spec_episode_prefix(last_season, eps.len() == 1) + "["@
                + crate::text::spec_zero_padded(start, width) + "] "@
                + crate::display::spec_item_title_ext(eps.first()),
        ] + spec_tree_episode_lines(eps.drop_first(), last_season, start + 1, width)
    }
}

/// The lines of the series tree from one season on: each season's
/// header followed by its episode lines, with flattened indices
/// counting on across seasons.
pub open spec fn spec_tree_season_lines(seasons: Seq<Season>, start: int, width: int) -> Seq<
    Seq<char>,
>
    decreases seasons.len(),
{
    if seasons.len() == 0 {
        Seq::empty()
    } else {
        seq![spec_season_prefix(seasons.len() == 1) + seasons.first().item.Name@]
            + spec_tree_episode_lines(
            seasons.first().episodes@,
            seasons.len() == 1,
            start,
            width,
        ) + spec_tree_season_lines(
            seasons.drop_first(),
            start + seasons.first().episodes@.len(),
            width,
        )
    }
}

/// The header line of the series tree: the series name with year
/// suffixes stripped and the first season's time label.
pub open spec fn spec_tree_header(seasons: Seq<Season>) -> Seq<char> {
    let item0 = seasons.first().item;
    let name = match item0.SeriesName {
        Some(n) => n@,
        None => "???"@,
    };
    " "@ + crate::display::spec_strip_years(name) + " "@ + crate::display::spec_time_label(item0)
}

/// The whole series tree, as the episode selection screen draws it:
/// the series header, then per season its name and its episodes, each
/// carrying its zero-padded flattened index.
pub open spec fn spec_series_tree(seasons: Seq<Season>) -> Seq<Seq<char>> {
    let width = crate::text::spec_decimal(spec_flatten_seasons(seasons).len() as int).len();
    seq![spec_tree_header(seasons)] + spec_tree_season_lines(seasons, 0, width as int)
}

/// The view of built tree lines.
pub open spec fn spec_line_views(lines: Seq<String>) -> Seq<Seq<char>> {
    lines.map_values(|l: String| l@)
}

/// Counts the episodes of a resolved series.
#[verifier::loop_isolation(false)]
fn count_episodes(series: &Series) -> (n: usize)
    requires
        spec_flatten_seasons(series.seasons@).len() <= usize::MAX,
    ensures
        n == spec_flatten_seasons(series.seasons@).len(),
{
    let mut n: usize = 0;
    let mut k: usize = 0;
    while k < series.seasons.len()
        invariant
            0 <= k <= series.seasons@.len(),
            n == spec_flatten_seasons(series.seasons@.take(k as int)).len(),
        decreases series.seasons@.len() - k,
    {
        proof {
            lemma_flatten_take_step(series.seasons@, k as int);
            lemma_flatten_len_bound(series.seasons@);
            assert(spec_flatten_seasons(series.seasons@.take(k + 1)).len()
                <= spec_flatten_seasons(series.seasons@).len());
        }
        let more = series.seasons[k].episodes.len();
        n = n + more;
        k += 1;
    }
    proof {
        assert(series.seasons@.take(series.seasons@.len() as int) =~= series.seasons@);
    }
    n
}

/// Flattening one more season appends its episodes.
proof fn lemma_flatten_take_step(seasons: Seq<Season>, k: int)
    requires
        0 <= k < seasons.len(),
    ensures
        spec_flatten_seasons(seasons.take(k + 1)).len() == spec_flatten_seasons(seasons.take(k)).len()
            + seasons[k].episodes@.len(),
    decreases k,
{
    if k == 0 {
        assert(seasons.take(1).drop_first() =~= seasons.take(0));
        assert(seasons.take(1).first() == seasons[0]);
        assert(spec_flatten_seasons(seasons.take(0)) =~= Seq::<Item>::empty());
    } else {
        assert(seasons.take(k + 1).first() == seasons[0]);
        assert(seasons.take(k).first() == seasons[0]);
        assert(seasons.take(k + 1).drop_first() =~= seasons.drop_first().take(k));
        assert(seasons.take(k).drop_first() =~= seasons.drop_first().take(k - 1));
        lemma_flatten_take_step(seasons.drop_first(), k - 1);
    }
}

/// A prefix of the seasons never flattens to more episodes than the
/// whole.
proof fn lemma_flatten_len_bound(seasons: Seq<Season>)
    ensures
        forall|k: int|
            0 <= k <= seasons.len() ==> spec_flatten_seasons(#[trigger] seasons.take(k)).len()
                <= spec_flatten_seasons(seasons).len(),
{
    assert forall|k: int|
        0 <= k <= seasons.len() implies spec_flatten_seasons(#[trigger] seasons.take(k)).len()
        <= spec_flatten_seasons(seasons).len() by {
        lemma_flatten_take_le(seasons, k);
    }
}

/// Flattened prefixes only grow.
proof fn lemma_flatten_take_le(seasons: Seq<Season>, k: int)
    requires
        0 <= k <= seasons.len(),
    ensures
        spec_flatten_seasons(seasons.take(k)).len() <= spec_flatten_seasons(seasons).len(),
    decreases seasons.len() - k,
{
    if k == seasons.len() {
        assert(seasons.take(k) =~= seasons);
    } else {
        lemma_flatten_take_step(seasons, k);
        lemma_flatten_take_le(seasons, k + 1);
    }
}

/// Draws the series tree the episode selection screen shows: the
/// series header, each season's name, and every episode with its
/// zero-padded flattened index and extended title.
#[verifier::loop_isolation(false)]
pub fn series_tree_lines(series: &Series) -> (lines: Vec<String>)
    requires
        series.seasons@.len() > 0,
        spec_flatten_seasons(series.seasons@).len() <= usize::MAX,
    ensures
        spec_line_views(lines@) == spec_series_tree(series.seasons@),
{
    let ghost seasons = series.seasons@;
    let total = count_episodes(series);
    let total_str = crate::text::decimal_string(total as u64);
    let width = total_str.as_str().unicode_len();
    let ghost w = width as int;
    let mut lines: Vec<String> = Vec::new();

    let first_item = &series.seasons[0].item;
    let mut header = String::from_str(" ");
    let name_part = match &first_item.SeriesName {
        Some(n) => crate::display::strip_years(n.as_str()),
        None => crate::display::strip_years("???"),
    };
    header.append(name_part.as_str());
    header.append(" ");
    let time = crate::display::time_label(first_item);
    header.append(time.as_str());
    lines.push(header);
    proof {
        assert(spec_line_views(lines@) =~= seq![spec_tree_header(seasons)]);
    }

    let mut start: usize = 0;
    let mut k: usize = 0;
    proof {
        assert(seasons.skip(0) =~= seasons);
        assert(seasons.take(0) =~= Seq::<Season>::empty());
        assert(spec_flatten_seasons(Seq::<Season>::empty()) =~= Seq::<Item>::empty());
        assert(w == crate::text::spec_decimal(spec_flatten_seasons(seasons).len() as int).len());
    }
    while k < series.seasons.len()
        invariant
            0 <= k <= seasons.len(),
            start == spec_flatten_seasons(seasons.take(k as int)).len(),
            (spec_line_views(lines@) + spec_tree_season_lines(
                seasons.skip(k as int),
                start as int,
                w,
            ) =~= spec_series_tree(seasons)),
        decreases seasons.len() - k,
    {
        let ghost rest = seasons.skip(k as int);
        proof {
            assert(rest.first() == seasons[k as int]);
            assert(rest.drop_first() =~= seasons.skip(k + 1));
            lemma_flatten_take_step(seasons, k as int);
            lemma_flatten_len_bound(seasons);
            assert(seasons.take(seasons.len() as int) =~= seasons);
        }
        let season = &series.seasons[k];
        let last_season = k == series.seasons.len() - 1;
        let mut season_line = if last_season {
            String::from_str("  └─ ")
        } else {
            String::from_str("  ├─ ")
        };
        season_line.append(season.item.Name.as_str());
        let ghost lines_before = spec_line_views(lines@);
        lines.push(season_line);
        proof {
            assert(spec_line_views(lines@) =~= lines_before.push(
                spec_season_prefix(rest.len() == 1) + rest.first().item.Name@,
            ));
            assert(spec_tree_season_lines(rest, start as int, w) =~= seq![
                spec_season_prefix(rest.len() == 1) + rest.first().item.Name@,
            ] + spec_tree_episode_lines(rest.first().episodes@, rest.len() == 1, start as int, w)
                + spec_tree_season_lines(
                seasons.skip(k + 1),
                start + rest.first().episodes@.len(),
                w,
            ));
            assert(spec_line_views(lines@) + spec_tree_episode_lines(
                season.episodes@.skip(0),
                rest.len() == 1,
                start as int,
                w,
            ) + spec_tree_season_lines(
                seasons.skip(k + 1),
                start + season.episodes@.len(),
                w,
            ) =~= spec_series_tree(seasons)) by {
                assert(season.episodes@.skip(0) =~= season.episodes@);
                assert(rest.first().episodes@ =~= season.episodes@);
            }
        }

        let mut j: usize = 0;
        while j < season.episodes.len()
            invariant
                0 <= j <= season.episodes@.len(),
                0 <= k < seasons.len(),
                (season == &series.seasons@[k as int]),
                (spec_line_views(lines@) + spec_tree_episode_lines(
                    season.episodes@.skip(j as int),
                    rest.len() == 1,
                    start + j,
                    w,
                ) + spec_tree_season_lines(
                    seasons.skip(k + 1),
                    start + season.episodes@.len(),
                    w,
                ) =~= spec_series_tree(seasons)),
            decreases season.episodes@.len() - j,
        {
            let ghost eps_rest = season.episodes@.skip(j as int);
            proof {
                assert(eps_rest.first() == season.episodes@[j as int]);
                assert(eps_rest.drop_first() =~= season.episodes@.skip(j + 1));
            }
            let last_episode = j == season.episodes.len() - 1;
            let mut line = if last_season {
                String::from_str("       ")
            } else {
                String::from_str("  │    ")
            };
            if last_episode {
                line.append("└── ");
            } else {
                line.append("├── ");
            }
            line.append("[");
            let index_str = crate::text::zero_padded_string((start + j) as u64, width);
            line.append(index_str.as_str());
            line.append("] ");
            let title = season.episodes[j].to_string_ext();
            line.append(title.as_str());
            let ghost before = spec_line_views(lines@);
            lines.push(line);
            proof {
                assert(spec_line_views(lines@) =~= before.push(
                    spec_episode_prefix(rest.len() == 1, eps_rest.len() == 1) + "["@
                        + crate::text::spec_zero_padded(start + j, w) + "] "@
                        + crate::display::spec_item_title_ext(eps_rest.first()),
                ));
                assert(spec_tree_episode_lines(eps_rest, rest.len() == 1, start + j, w)
                    =~= seq![
                    spec_episode_prefix(rest.len() == 1, eps_rest.len() == 1) + "["@
                        + crate::text::spec_zero_padded(start + j, w) + "] "@
                        + crate::display::spec_item_title_ext(eps_rest.first()),
                ] + spec_tree_episode_lines(
                    season.episodes@.skip(j + 1),
                    rest.len() == 1,
                    start + j + 1,
                    w,
                ));
                assert(spec_line_views(lines@) + spec_tree_episode_lines(
                    season.episodes@.skip(j + 1),
                    rest.len() == 1,
                    start + j + 1,
                    w,
                ) =~= before + spec_tree_episode_lines(eps_rest, rest.len() == 1, start + j, w));
            }
            j += 1;
        }
        proof {
            assert(season.episodes@.skip(season.episodes@.len() as int) =~= Seq::<Item>::empty());
            assert(spec_tree_episode_lines(
                Seq::<Item>::empty(),
                rest.len() == 1,
                start + season.episodes@.len(),
                w,
            ) =~= Seq::<Seq<char>>::empty());
            assert(spec_line_views(lines@) + spec_tree_season_lines(
                seasons.skip(k + 1),
                start + season.episodes@.len(),
                w,
            ) =~= spec_series_tree(seasons));
            lemma_flatten_take_step(seasons, k as int);
        }
        start = start + season.episodes.len();
        k += 1;
    }
    proof {
        assert(seasons.skip(seasons.len() as int) =~= Seq::<Season>::empty());
        assert(spec_tree_season_lines(Seq::<Season>::empty(), start as int, w) =~= Seq::<
            Seq<char>,
        >::empty());
        assert(spec_line_views(lines@) + Seq::<Seq<char>>::empty() =~= spec_line_views(lines@));
    }
    lines
}

} // verus!
