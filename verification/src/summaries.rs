//! Plain views of the platform's guild objects, holding exactly what the
//! dashboard's logic reads: a role's name and permissions, a channel's kind.
//! The transport fetches the full objects and converts; the filters here are
//! the decisions.

use vstd::prelude::*;

verus! {

/// What the dashboard reads of a guild role.
pub struct RoleSummary {
    /// The role's id.
    pub id: u64,
    /// The role's display name.
    pub name: String,
    /// The role's permission flags.
    pub permissions: u64,
}

/// The platform's kind code for a guild text channel.
pub const GUILD_TEXT: u8 = 0;

/// What the dashboard reads of a guild channel.
pub struct ChannelSummary {
    /// The channel's id.
    pub id: u64,
    /// The platform's channel-kind code.
    pub kind: u8,
}

/// The roles of `s` whose name is not the implicit `@everyone` role, in
/// order.
pub open spec fn without_everyone(s: Seq<RoleSummary>) -> Seq<RoleSummary>
    decreases s.len(),
{
    if s.len() == 0 {
        Seq::empty()
    } else {
        without_everyone(s.drop_last()) + (if s.last().name@ == "@everyone"@ {
            Seq::empty()
        } else {
            seq![s.last()]
        })
    }
}

/// The channels of `s` whose kind is `GUILD_TEXT`, in order.
pub open spec fn only_text(s: Seq<ChannelSummary>) -> Seq<ChannelSummary>
    decreases s.len(),
{
    if s.len() == 0 {
        Seq::empty()
    } else {
        only_text(s.drop_last()) + (if s.last().kind == GUILD_TEXT {
            seq![s.last()]
        } else {
            Seq::empty()
        })
    }
}

/// The roles the dashboard lists: every role but `@everyone`.
pub fn visible_roles(roles: Vec<RoleSummary>) -> (r: Vec<RoleSummary>)
    ensures
        r@ == without_everyone(roles@),
{
    let everyone: String = "@everyone".to_owned();
    let mut out: Vec<RoleSummary> = Vec::new();
    let mut i: usize = 0;
    while i < roles.len()
        invariant
            i <= roles@.len(),
            everyone@ == "@everyone"@,
            out@ == without_everyone(roles@.subrange(0, i as int)),
        decreases roles@.len() - i,
    {
        let ro = &roles[i];
        let keep = !(ro.name == everyone);
        if keep {
            out.push(RoleSummary { id: ro.id, name: ro.name.clone(), permissions: ro.permissions });
        }
        i = i + 1;
        proof {
            let pre = roles@.subrange(0, (i - 1) as int);
            let cur = roles@.subrange(0, i as int);
            assert(cur.drop_last() =~= pre);
            assert(cur.last() == roles@[i - 1]);
        }
    }
    proof {
        assert(roles@.subrange(0, roles@.len() as int) =~= roles@);
    }
    out
}

/// The channels the dashboard offers for the verification panel: the text
/// channels alone.
pub fn text_channels(channels: Vec<ChannelSummary>) -> (r: Vec<ChannelSummary>)
    ensures
        r@ == only_text(channels@),
{
    let mut out: Vec<ChannelSummary> = Vec::new();
    let mut i: usize = 0;
    while i < channels.len()
        invariant
            i <= channels@.len(),
            out@ == only_text(channels@.subrange(0, i as int)),
        decreases channels@.len() - i,
    {
        let c = &channels[i];
        if c.kind == GUILD_TEXT {
            out.push(ChannelSummary { id: c.id, kind: c.kind });
        }
        i = i + 1;
        proof {
            let pre = channels@.subrange(0, (i - 1) as int);
            let cur = channels@.subrange(0, i as int);
            assert(cur.drop_last() =~= pre);
            assert(cur.last() == channels@[i - 1]);
        }
    }
    proof {
        assert(channels@.subrange(0, channels@.len() as int) =~= channels@);
    }
    out
}

} // verus!
