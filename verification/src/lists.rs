//! The filtered lists the navigation screens select from: guilds and direct
//! conversations by case-insensitive name substring, emoji candidates by
//! case-sensitive name prefix, and guild channels by substring, readability
//! and category nesting.

use vstd::prelude::*;

use crate::model::{Channel, DM, Emoji, Guild, Overwrite, PermissionContext};
use crate::perm::{readable_with, spec_readable};
use crate::text::{
    contains_str, has_substring, is_prefix_of, lower_of, lowercase, str_starts_with_chars,
    string_of_chars,
};

verus! {

/// The lowercase form of a character buffer.
pub fn lowered_chars(input: &Vec<char>) -> (r: String)
    ensures
        r@ == lower_of(input@),
{
    let s = string_of_chars(input);
    lowercase(s.as_str())
}

/// A guild is listed when its lowercased name holds the filter.
pub open spec fn guild_matches(g: Guild, flt: Seq<char>) -> bool {
    has_substring(lower_of(g.name@), flt)
}

/// The indices of the guilds that match the filter, in list order.
pub open spec fn guild_idxs(gs: Seq<Guild>, flt: Seq<char>) -> Seq<usize>
    decreases gs.len(),
{
    if gs.len() == 0 {
        Seq::empty()
    } else {
        guild_idxs(gs.drop_last(), flt) + (if guild_matches(gs.last(), flt) {
            seq![(gs.len() - 1) as usize]
        } else {
            Seq::empty()
        })
    }
}

/// The indices of the guilds that match the filter.
pub fn filtered_guilds(gs: &Vec<Guild>, flt: &str) -> (r: Vec<usize>)
    ensures
        r@ == guild_idxs(gs@, flt@),
        forall|k: int| 0 <= k < r@.len() ==> #[trigger] r@[k] < gs@.len(),
{
    let n: usize = gs.len();
    let mut r: Vec<usize> = Vec::new();
    let mut i: usize = 0;
    while i < n
        invariant
            n == gs@.len(),
            0 <= i <= n,
            r@ == guild_idxs(gs@.take(i as int), flt@),
            forall|k: int| 0 <= k < r@.len() ==> #[trigger] r@[k] < i,
        decreases n - i,
    {
        proof {
            assert(gs@.take(i + 1).drop_last() =~= gs@.take(i as int));
            assert(gs@.take(i + 1).last() == gs@[i as int]);
        }
        let name_lc = lowercase(gs[i].name.as_str());
        if contains_str(name_lc.as_str(), flt) {
            r.push(i);
        }
        i = i + 1;
    }
    proof {
        assert(gs@.take(n as int) =~= gs@);
    }
    r
}

/// A conversation is listed when its lowercased display name holds the
/// filter.
pub open spec fn dm_matches(d: DM, flt: Seq<char>) -> bool {
    has_substring(lower_of(d.spec_name()), flt)
}

/// The indices of the conversations that match the filter, in list order.
pub open spec fn dm_idxs(ds: Seq<DM>, flt: Seq<char>) -> Seq<usize>
    decreases ds.len(),
{
    if ds.len() == 0 {
        Seq::empty()
    } else {
        dm_idxs(ds.drop_last(), flt) + (if dm_matches(ds.last(), flt) {
            seq![(ds.len() - 1) as usize]
        } else {
            Seq::empty()
        })
    }
}

/// The indices of the conversations that match the filter.
pub fn filtered_dms(ds: &Vec<DM>, flt: &str) -> (r: Vec<usize>)
    ensures
        r@ == dm_idxs(ds@, flt@),
        forall|k: int| 0 <= k < r@.len() ==> #[trigger] r@[k] < ds@.len(),
{
    let n: usize = ds.len();
    let mut r: Vec<usize> = Vec::new();
    let mut i: usize = 0;
    while i < n
        invariant
            n == ds@.len(),
            0 <= i <= n,
            r@ == dm_idxs(ds@.take(i as int), flt@),
            forall|k: int| 0 <= k < r@.len() ==> #[trigger] r@[k] < i,
        decreases n - i,
    {
        proof {
            assert(ds@.take(i + 1).drop_last() =~= ds@.take(i as int));
            assert(ds@.take(i + 1).last() == ds@[i as int]);
        }
        let name = ds[i].get_name();
        let name_lc = lowercase(name.as_str());
        if contains_str(name_lc.as_str(), flt) {
            r.push(i);
        }
        i = i + 1;
    }
    proof {
        assert(ds@.take(n as int) =~= ds@);
    }
    r
}

/// A candidate on the emoji screen: an entry of the configured table, or
/// one of the guild's custom emoji.
#[derive(Debug, Clone, Copy, PartialEq, Eq)]
pub enum EmojiChoice {
    Table(usize),
    Custom(usize),
}

/// An emoji-table entry is a candidate when its name starts with the
/// filter (case-sensitive).
pub open spec fn emoji_entry_matches(e: (String, String), flt: Seq<char>) -> bool {
    is_prefix_of(flt, e.0@)
}

/// The matching emoji-table entries, in table order.
pub open spec fn table_cands(m: Seq<(String, String)>, flt: Seq<char>) -> Seq<EmojiChoice>
    decreases m.len(),
{
    if m.len() == 0 {
        Seq::empty()
    } else {
        table_cands(m.drop_last(), flt) + (if emoji_entry_matches(m.last(), flt) {
            seq![EmojiChoice::Table((m.len() - 1) as usize)]
        } else {
            Seq::empty()
        })
    }
}

/// A custom emoji is a candidate when its name starts with the filter
/// (case-sensitive).
pub open spec fn custom_matches(e: Emoji, flt: Seq<char>) -> bool {
    is_prefix_of(flt, e.name@)
}

/// The matching custom emoji, in fetch order.
pub open spec fn custom_cands(es: Seq<Emoji>, flt: Seq<char>) -> Seq<EmojiChoice>
    decreases es.len(),
{
    if es.len() == 0 {
        Seq::empty()
    } else {
        custom_cands(es.drop_last(), flt) + (if custom_matches(es.last(), flt) {
            seq![EmojiChoice::Custom((es.len() - 1) as usize)]
        } else {
            Seq::empty()
        })
    }
}

/// The emoji screen's candidates: the matching table entries, then the
/// matching custom emoji.
pub open spec fn emoji_cands(
    m: Seq<(String, String)>,
    es: Seq<Emoji>,
    flt: Seq<char>,
) -> Seq<EmojiChoice> {
    table_cands(m, flt) + custom_cands(es, flt)
}

/// The emoji screen's candidates.
pub fn build_emoji_cands(
    m: &Vec<(String, String)>,
    es: &Vec<Emoji>,
    flt: &Vec<char>,
) -> (r: Vec<EmojiChoice>)
    ensures
        r@ == emoji_cands(m@, es@, flt@),
        forall|k: int|
            0 <= k < r@.len() ==> match #[trigger] r@[k] {
                EmojiChoice::Table(i) => i < m@.len(),
                EmojiChoice::Custom(i) => i < es@.len(),
            },
{
    let n: usize = m.len();
    let mut r: Vec<EmojiChoice> = Vec::new();
    let mut i: usize = 0;
    while i < n
        invariant
            n == m@.len(),
            0 <= i <= n,
            r@ == table_cands(m@.take(i as int), flt@),
            forall|k: int|
                0 <= k < r@.len() ==> match #[trigger] r@[k] {
                    EmojiChoice::Table(t) => t < i,
                    EmojiChoice::Custom(_) => false,
                },
        decreases n - i,
    {
        proof {
            assert(m@.take(i + 1).drop_last() =~= m@.take(i as int));
            assert(m@.take(i + 1).last() == m@[i as int]);
        }
        if str_starts_with_chars(m[i].0.as_str(), flt) {
            r.push(EmojiChoice::Table(i));
        }
        i = i + 1;
    }
    proof {
        assert(m@.take(n as int) =~= m@);
    }
    let ne: usize = es.len();
    let mut j: usize = 0;
    while j < ne
        invariant
            n == m@.len(),
            ne == es@.len(),
            0 <= j <= ne,
            r@ == table_cands(m@, flt@) + custom_cands(es@.take(j as int), flt@),
            forall|k: int|
                0 <= k < r@.len() ==> match #[trigger] r@[k] {
                    EmojiChoice::Table(t) => t < n,
                    EmojiChoice::Custom(c) => c < j,
                },
        decreases ne - j,
    {
        proof {
            assert(es@.take(j + 1).drop_last() =~= es@.take(j as int));
            assert(es@.take(j + 1).last() == es@[j as int]);
        }
        if str_starts_with_chars(es[j].name.as_str(), flt) {
            r.push(EmojiChoice::Custom(j));
            proof {
                assert(table_cands(m@, flt@) + custom_cands(es@.take(j as int), flt@) + seq![
                    EmojiChoice::Custom(j),
                ] =~= table_cands(m@, flt@) + (custom_cands(es@.take(j as int), flt@) + seq![
                    EmojiChoice::Custom(j),
                ]));
            }
        } else {
            proof {
                assert(custom_cands(es@.take(j + 1), flt@) =~= custom_cands(
                    es@.take(j as int),
                    flt@,
                ));
            }
        }
        j = j + 1;
    }
    proof {
        assert(es@.take(ne as int) =~= es@);
    }
    r
}

/// One row of the channel screen: the channel at `idx`, shown under the
/// category at `parent` when it is a nested child.
#[derive(Debug, Clone, Copy, PartialEq, Eq)]
pub struct ChanRow {
    pub idx: usize,
    pub parent: Option<usize>,
}

/// Readability under an optional context: without a permission context no
/// channel is readable.
pub open spec fn ctx_readable(ows: Seq<Overwrite>, ctx: Option<PermissionContext>) -> bool {
    match ctx {
        Option::Some(c) => spec_readable(ows, c),
        Option::None => false,
    }
}

/// A channel matches when its lowercased name holds the filter.
pub open spec fn chan_matches(c: Channel, flt: Seq<char>) -> bool {
    has_substring(lower_of(c.name@), flt)
}

/// The overwrites that govern a nested child: its own, or its category's
/// when it has none.
pub open spec fn eff_ows(cat: Channel, ch: Channel) -> Seq<Overwrite> {
    if ch.permission_overwrites@.len() == 0 {
        cat.permission_overwrites@
    } else {
        ch.permission_overwrites@
    }
}

/// Whether `ch` is a visible child of the category `cat`: nested under it,
/// matching, and readable under its effective overwrites.
pub open spec fn child_visible(
    cat: Channel,
    ch: Channel,
    flt: Seq<char>,
    ctx: Option<PermissionContext>,
) -> bool {
    &&& ch.channel_type != 4
    &&& ch.parent_id is Some
    &&& ch.parent_id->0@ == cat.id@
    &&& chan_matches(ch, flt)
    &&& ctx_readable(eff_ows(cat, ch), ctx)
}

/// A category is listed when its own name matches or some visible child
/// sits under it.
pub open spec fn cat_visible(
    chs: Seq<Channel>,
    cat: Channel,
    flt: Seq<char>,
    ctx: Option<PermissionContext>,
) -> bool {
    chan_matches(cat, flt) || exists|j: int|
        0 <= j < chs.len() && child_visible(cat, #[trigger] chs[j], flt, ctx)
}

/// Whether some category in the list owns this channel.
pub open spec fn has_parent_cat(chs: Seq<Channel>, c: Channel) -> bool {
    match c.parent_id {
        Option::Some(pid) => exists|k: int|
            0 <= k < chs.len() && (#[trigger] chs[k]).channel_type == 4 && chs[k].id@ == pid@,
        Option::None => false,
    }
}

/// The rows of the visible children of the category at `cat_i`, drawn from
/// the first `upto` channels.
pub open spec fn child_rows(
    chs: Seq<Channel>,
    cat_i: int,
    flt: Seq<char>,
    ctx: Option<PermissionContext>,
    upto: int,
) -> Seq<ChanRow>
    decreases upto,
{
    if upto <= 0 {
        Seq::empty()
    } else {
        child_rows(chs, cat_i, flt, ctx, upto - 1) + (if child_visible(
            chs[cat_i],
            chs[upto - 1],
            flt,
            ctx,
        ) {
            seq![(ChanRow { idx: (upto - 1) as usize, parent: Some(cat_i as usize) })]
        } else {
            Seq::empty()
        })
    }
}

/// The rows contributed by the channel at index `i`: a listed category with
/// its visible children, a matching readable top-level channel, or nothing.
pub open spec fn row_block(
    chs: Seq<Channel>,
    i: int,
    flt: Seq<char>,
    ctx: Option<PermissionContext>,
) -> Seq<ChanRow> {
    let c = chs[i];
    if c.channel_type == 4 {
        if cat_visible(chs, c, flt, ctx) {
            seq![(ChanRow { idx: i as usize, parent: None })] + child_rows(
                chs,
                i,
                flt,
                ctx,
                chs.len() as int,
            )
        } else {
            Seq::empty()
        }
    } else if !has_parent_cat(chs, c) && ctx_readable(c.permission_overwrites@, ctx)
        && chan_matches(c, flt) {
        seq![(ChanRow { idx: i as usize, parent: None })]
    } else {
        Seq::empty()
    }
}

/// The rows contributed by the first `upto` channels.
pub open spec fn rows_upto(
    chs: Seq<Channel>,
    flt: Seq<char>,
    ctx: Option<PermissionContext>,
    upto: int,
) -> Seq<ChanRow>
    decreases upto,
{
    if upto <= 0 {
        Seq::empty()
    } else {
        rows_upto(chs, flt, ctx, upto - 1) + row_block(chs, upto - 1, flt, ctx)
    }
}

/// The channel screen's filtered rows: each listed category followed by
/// its visible children, and the matching readable top-level channels, in
/// list order.
pub open spec fn chan_rows(
    chs: Seq<Channel>,
    flt: Seq<char>,
    ctx: Option<PermissionContext>,
) -> Seq<ChanRow> {
    rows_upto(chs, flt, ctx, chs.len() as int)
}

/// Whether `ch` is a visible child of the category `cat`.
fn check_child_visible(
    cat: &Channel,
    ch: &Channel,
    flt: &str,
    ctx: &Option<PermissionContext>,
) -> (r: bool)
    ensures
        r == child_visible(*cat, *ch, flt@, *ctx),
{
    if ch.channel_type == 4 {
        return false;
    }
    let nested = match &ch.parent_id {
        Option::Some(pid) => *pid == cat.id,
        Option::None => false,
    };
    if !nested {
        return false;
    }
    let name_lc = lowercase(ch.name.as_str());
    if !contains_str(name_lc.as_str(), flt) {
        return false;
    }
    match ctx {
        Option::Some(c) => {
            if ch.permission_overwrites.len() == 0 {
                readable_with(&cat.permission_overwrites, c)
            } else {
                readable_with(&ch.permission_overwrites, c)
            }
        },
        Option::None => false,
    }
}

/// The channel screen's filtered rows.
pub fn build_chan_rows(
    chs: &Vec<Channel>,
    flt: &str,
    ctx: &Option<PermissionContext>,
) -> (r: Vec<ChanRow>)
    ensures
        r@ == chan_rows(chs@, flt@, *ctx),
        forall|k: int| 0 <= k < r@.len() ==> (#[trigger] r@[k]).idx < chs@.len(),
{
    let n: usize = chs.len();
    let mut r: Vec<ChanRow> = Vec::new();
    let mut i: usize = 0;
    while i < n
        invariant
            n == chs@.len(),
            0 <= i <= n,
            r@ == rows_upto(chs@, flt@, *ctx, i as int),
            forall|k: int| 0 <= k < r@.len() ==> (#[trigger] r@[k]).idx < n,
        decreases n - i,
    {
        if chs[i].channel_type == 4 {
            let name_lc = lowercase(chs[i].name.as_str());
            let mut vis: bool = contains_str(name_lc.as_str(), flt);
            let mut j: usize = 0;
            while !vis && j < n
                invariant
                    n == chs@.len(),
                    i < n,
                    0 <= j <= n,
                    vis ==> cat_visible(chs@, chs@[i as int], flt@, *ctx),
                    !vis ==> !chan_matches(chs@[i as int], flt@) && forall|k: int|
                        0 <= k < j ==> !child_visible(chs@[i as int], #[trigger] chs@[k], flt@, *ctx),
                decreases n - j,
            {
                if check_child_visible(&chs[i], &chs[j], flt, ctx) {
                    vis = true;
                }
                j = j + 1;
            }
            if vis {
                r.push(ChanRow { idx: i, parent: None });
                let mut m: usize = 0;
                while m < n
                    invariant
                        n == chs@.len(),
                        i < n,
                        0 <= m <= n,
                        cat_visible(chs@, chs@[i as int], flt@, *ctx),
                        r@ == rows_upto(chs@, flt@, *ctx, i as int) + seq![
                            (ChanRow { idx: i, parent: None }),
                        ] + child_rows(chs@, i as int, flt@, *ctx, m as int),
                        forall|k: int| 0 <= k < r@.len() ==> (#[trigger] r@[k]).idx < n,
                    decreases n - m,
                {
                    if check_child_visible(&chs[i], &chs[m], flt, ctx) {
                        r.push(ChanRow { idx: m, parent: Some(i) });
                    }
                    m = m + 1;
                }
            }
        } else {
            let mut nested: bool = false;
            match &chs[i].parent_id {
                Option::Some(pid) => {
                    let mut k: usize = 0;
                    while k < n
                        invariant
                            n == chs@.len(),
                            i < n,
                            0 <= k <= n,
                            chs@[i as int].parent_id is Some,
                            pid@ == chs@[i as int].parent_id->0@,
                            nested <==> exists|t: int|
                                0 <= t < k && (#[trigger] chs@[t]).channel_type == 4 && chs@[t].id@
                                    == pid@,
                        decreases n - k,
                    {
                        if chs[k].channel_type == 4 && chs[k].id == *pid {
                            nested = true;
                        }
                        k = k + 1;
                    }
                },
                Option::None => {},
            }
            if !nested {
                let readable = match ctx {
                    Option::Some(c) => readable_with(&chs[i].permission_overwrites, c),
                    Option::None => false,
                };
                if readable {
                    let name_lc = lowercase(chs[i].name.as_str());
                    if contains_str(name_lc.as_str(), flt) {
                        r.push(ChanRow { idx: i, parent: None });
                    }
                }
            }
        }
        i = i + 1;
    }
    proof {
        assert(rows_upto(chs@, flt@, *ctx, n as int) == chan_rows(chs@, flt@, *ctx));
    }
    r
}

} // verus!
