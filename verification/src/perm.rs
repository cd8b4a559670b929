//! The permission evaluator: whether a channel is readable under the
//! viewer's permission context. Evaluation is layered: the union of the
//! viewer's role baselines, then the everyone-role overwrite, then the
//! overwrites of the viewer's other roles (denies taking precedence over
//! allows inside that layer), then the member overwrite, each layer able to
//! override the previous.

use vstd::prelude::*;

use crate::model::{Channel, Overwrite, PermissionContext, Role};

verus! {

/// The permission bit that makes a channel readable.
pub const VIEW_CHANNEL_BIT: u64 = 1024;

/// `id` occurs in the list of identifiers.
pub open spec fn has_id(ids: Seq<String>, id: Seq<char>) -> bool {
    exists|i: int| 0 <= i < ids.len() && #[trigger] ids[i]@ == id
}

/// `id` occurs in the list of identifiers.
pub fn id_in_list(ids: &Vec<String>, id: &String) -> (r: bool)
    ensures
        r == has_id(ids@, id@),
{
    let n: usize = ids.len();
    let mut i: usize = 0;
    while i < n
        invariant
            n == ids@.len(),
            0 <= i <= n,
            forall|k: int| 0 <= k < i ==> #[trigger] ids@[k]@ != id@,
        decreases n - i,
    {
        if ids[i] == *id {
            return true;
        }
        i = i + 1;
    }
    false
}

/// The union of the baseline permission bits of every role the viewer has.
pub open spec fn base_perms(roles: Seq<Role>, user_role_ids: Seq<String>) -> u64
    decreases roles.len(),
{
    if roles.len() == 0 {
        0u64
    } else {
        base_perms(roles.drop_last(), user_role_ids) | (if has_id(
            user_role_ids,
            roles.last().id@,
        ) {
            roles.last().permissions
        } else {
            0u64
        })
    }
}

/// One overwrite layered over `perms`: its denied bits are cleared, then
/// its allowed bits are set.
pub open spec fn apply_overwrite(perms: u64, ow: Overwrite) -> u64 {
    (perms & !ow.deny) | ow.allow
}

/// Whether an overwrite belongs to the everyone-role layer.
pub open spec fn is_everyone_ow(ow: Overwrite, everyone: Seq<char>) -> bool {
    ow.kind == 0 && ow.id@ == everyone
}

/// The everyone-role overwrites applied over `perms`, in list order.
pub open spec fn everyone_layer(perms: u64, ows: Seq<Overwrite>, everyone: Seq<char>) -> u64
    decreases ows.len(),
{
    if ows.len() == 0 {
        perms
    } else if is_everyone_ow(ows.last(), everyone) {
        apply_overwrite(everyone_layer(perms, ows.drop_last(), everyone), ows.last())
    } else {
        everyone_layer(perms, ows.drop_last(), everyone)
    }
}

/// Whether an overwrite belongs to the layer of the viewer's other roles.
pub open spec fn is_user_role_ow(ow: Overwrite, ctx: PermissionContext) -> bool {
    ow.kind == 0 && ow.id@ != ctx.everyone_role_id@ && has_id(ctx.user_role_ids@, ow.id@)
}

/// The union of the allow bits of the viewer's role overwrites.
pub open spec fn role_allow_bits(ows: Seq<Overwrite>, ctx: PermissionContext) -> u64
    decreases ows.len(),
{
    if ows.len() == 0 {
        0u64
    } else {
        role_allow_bits(ows.drop_last(), ctx) | (if is_user_role_ow(ows.last(), ctx) {
            ows.last().allow
        } else {
            0u64
        })
    }
}

/// The union of the deny bits of the viewer's role overwrites.
pub open spec fn role_deny_bits(ows: Seq<Overwrite>, ctx: PermissionContext) -> u64
    decreases ows.len(),
{
    if ows.len() == 0 {
        0u64
    } else {
        role_deny_bits(ows.drop_last(), ctx) | (if is_user_role_ow(ows.last(), ctx) {
            ows.last().deny
        } else {
            0u64
        })
    }
}

/// Whether an overwrite is the viewer's member overwrite.
pub open spec fn is_member_ow(ow: Overwrite, user_id: Seq<char>) -> bool {
    ow.kind == 1 && ow.id@ == user_id
}

/// The member overwrites applied over `perms`, in list order.
pub open spec fn member_layer(perms: u64, ows: Seq<Overwrite>, user_id: Seq<char>) -> u64
    decreases ows.len(),
{
    if ows.len() == 0 {
        perms
    } else if is_member_ow(ows.last(), user_id) {
        apply_overwrite(member_layer(perms, ows.drop_last(), user_id), ows.last())
    } else {
        member_layer(perms, ows.drop_last(), user_id)
    }
}

/// The viewer's effective permission bits on a channel with the given
/// overwrites: baseline, then the everyone layer, then the role layer with
/// denies beating allows, then the member layer.
pub open spec fn spec_channel_perms(ows: Seq<Overwrite>, ctx: PermissionContext) -> u64 {
    let base = base_perms(ctx.all_guild_roles@, ctx.user_role_ids@);
    let after_everyone = everyone_layer(base, ows, ctx.everyone_role_id@);
    let after_roles = (after_everyone | role_allow_bits(ows, ctx)) & !role_deny_bits(ows, ctx);
    member_layer(after_roles, ows, ctx.user_id@)
}

/// Whether the given overwrites leave the channel readable for the viewer.
pub open spec fn spec_readable(ows: Seq<Overwrite>, ctx: PermissionContext) -> bool {
    spec_channel_perms(ows, ctx) & VIEW_CHANNEL_BIT != 0
}

/// The viewer's effective permission bits on a channel.
pub fn channel_perms(ows: &Vec<Overwrite>, ctx: &PermissionContext) -> (r: u64)
    ensures
        r == spec_channel_perms(ows@, *ctx),
{
    let mut base: u64 = 0;
    let n_roles: usize = ctx.all_guild_roles.len();
    let mut i: usize = 0;
    while i < n_roles
        invariant
            n_roles == ctx.all_guild_roles@.len(),
            0 <= i <= n_roles,
            base == base_perms(ctx.all_guild_roles@.take(i as int), ctx.user_role_ids@),
        decreases n_roles - i,
    {
        proof {
            assert(ctx.all_guild_roles@.take(i + 1).drop_last() =~= ctx.all_guild_roles@.take(
                i as int,
            ));
            assert(ctx.all_guild_roles@.take(i + 1).last() == ctx.all_guild_roles@[i as int]);
        }
        let add: u64 = if id_in_list(&ctx.user_role_ids, &ctx.all_guild_roles[i].id) {
            ctx.all_guild_roles[i].permissions
        } else {
            0
        };
        base = base | add;
        i = i + 1;
    }
    proof {
        assert(ctx.all_guild_roles@.take(n_roles as int) =~= ctx.all_guild_roles@);
    }

    let n: usize = ows.len();
    let mut after_everyone: u64 = base;
    let mut j: usize = 0;
    while j < n
        invariant
            n == ows@.len(),
            0 <= j <= n,
            after_everyone == everyone_layer(base, ows@.take(j as int), ctx.everyone_role_id@),
        decreases n - j,
    {
        proof {
            assert(ows@.take(j + 1).drop_last() =~= ows@.take(j as int));
            assert(ows@.take(j + 1).last() == ows@[j as int]);
        }
        if ows[j].kind == 0 && ows[j].id == ctx.everyone_role_id {
            after_everyone = (after_everyone & !ows[j].deny) | ows[j].allow;
        }
        j = j + 1;
    }

    let mut allow_bits: u64 = 0;
    let mut deny_bits: u64 = 0;
    let mut k: usize = 0;
    while k < n
        invariant
            n == ows@.len(),
            0 <= k <= n,
            allow_bits == role_allow_bits(ows@.take(k as int), *ctx),
            deny_bits == role_deny_bits(ows@.take(k as int), *ctx),
        decreases n - k,
    {
        proof {
            assert(ows@.take(k + 1).drop_last() =~= ows@.take(k as int));
            assert(ows@.take(k + 1).last() == ows@[k as int]);
        }
        let in_layer: bool = ows[k].kind == 0 && !(ows[k].id == ctx.everyone_role_id)
            && id_in_list(&ctx.user_role_ids, &ows[k].id);
        let add_allow: u64 = if in_layer {
            ows[k].allow
        } else {
            0
        };
        let add_deny: u64 = if in_layer {
            ows[k].deny
        } else {
            0
        };
        allow_bits = allow_bits | add_allow;
        deny_bits = deny_bits | add_deny;
        k = k + 1;
    }

    let after_roles: u64 = (after_everyone | allow_bits) & !deny_bits;

    let mut perms: u64 = after_roles;
    let mut m: usize = 0;
    while m < n
        invariant
            n == ows@.len(),
            0 <= m <= n,
            perms == member_layer(after_roles, ows@.take(m as int), ctx.user_id@),
        decreases n - m,
    {
        proof {
            assert(ows@.take(m + 1).drop_last() =~= ows@.take(m as int));
            assert(ows@.take(m + 1).last() == ows@[m as int]);
        }
        if ows[m].kind == 1 && ows[m].id == ctx.user_id {
            perms = (perms & !ows[m].deny) | ows[m].allow;
        }
        m = m + 1;
    }
    proof {
        assert(ows@.take(n as int) =~= ows@);
    }
    perms
}

/// Whether the given overwrites leave the channel readable for the viewer.
pub fn readable_with(ows: &Vec<Overwrite>, ctx: &PermissionContext) -> (r: bool)
    ensures
        r == spec_readable(ows@, *ctx),
{
    channel_perms(ows, ctx) & VIEW_CHANNEL_BIT != 0
}

impl Channel {
    /// Whether this channel is readable under the context, judged by its
    /// own overwrites.
    pub fn is_readable(&self, ctx: &PermissionContext) -> (r: bool)
        ensures
            r == spec_readable(self.permission_overwrites@, *ctx),
    {
        readable_with(&self.permission_overwrites, ctx)
    }
}

} // verus!
