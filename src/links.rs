use vstd::prelude::*;
use crate::embed::opt_view;

verus! {

/// Message permalinks: optional scheme, optional regional subdomain, then
/// server, channel and message ids as decimal digits.
pub const LINK_PATTERN: &'static str = "(?:https?://)?(?:canary\\.|ptb\\.)?discord(?:app)?\\.com/channels/(?<server_id>\\d+)/(?<channel_id>\\d+)/(?<message_id>\\d+)";

/// The capture groups of each successive match of a regular expression in a
/// text, the whole match first; `None` for a group that took no part.
pub uninterp spec fn regex_captures(pattern: Seq<char>, text: Seq<char>) -> Seq<Seq<Option<Seq<char>>>>;

pub open spec fn groups_view(v: Seq<Vec<Option<String>>>) -> Seq<Seq<Option<Seq<char>>>> {
    v.map_values(|g: Vec<Option<String>>| g@.map_values(|o: Option<String>| opt_view(o)))
}

/// Relies on `regex::Regex::new` (an error where the pattern is refused; the
/// permalink pattern is accepted) and `Regex::captures_iter` with
/// `Captures::iter`: the groups of every non-overlapping match, left to right.
#[verifier::external_body]
fn capture_groups(pattern: &str, text: &str) -> (r: Option<Vec<Vec<Option<String>>>>)
    ensures
        pattern@ == LINK_PATTERN@ ==> r is Some,
        r matches Some(v) ==> groups_view(v@) == regex_captures(pattern@, text@),
{
    let re = regex::Regex::new(pattern).ok()?;
    Some(
        re.captures_iter(text)
            .map(|c| c.iter().map(|m| m.map(|m| m.as_str().to_string())).collect())
            .collect(),
    )
}

pub open spec fn is_digit(c: char) -> bool {
    '0' <= c && c <= '9'
}

pub open spec fn all_digits(s: Seq<char>) -> bool {
    forall|i: int| 0 <= i < s.len() ==> is_digit(#[trigger] s[i])
}

/// The number that a string of decimal digits spells.
pub open spec fn digits_value(s: Seq<char>) -> int
    decreases s.len(),
{
    if s.len() == 0 {
        0
    } else {
        digits_value(s.drop_last()) * 10 + (s.last() as int - '0' as int)
    }
}

/// A platform id written in decimal: nonempty, digits only, nonzero and
/// within 64 bits.
pub open spec fn id_of(s: Seq<char>) -> Option<u64> {
    if s.len() > 0 && all_digits(s) && 0 < digits_value(s) <= u64::MAX {
        Some(digits_value(s) as u64)
    } else {
        None
    }
}

proof fn lemma_digits_nonneg(s: Seq<char>)
    requires
        all_digits(s),
    ensures
        digits_value(s) >= 0,
    decreases s.len(),
{
    if s.len() > 0 {
        lemma_digits_nonneg(s.drop_last());
    }
}

proof fn lemma_prefix_value_le(s: Seq<char>, k: int)
    requires
        all_digits(s),
        0 <= k <= s.len(),
    ensures
        digits_value(s.subrange(0, k)) <= digits_value(s),
    decreases s.len() - k,
{
    if k < s.len() {
        let p = s.subrange(0, k + 1);
        assert(p.drop_last() =~= s.subrange(0, k));
        assert(all_digits(s.subrange(0, k)));
        lemma_digits_nonneg(s.subrange(0, k));
        assert(is_digit(s[k]));
        lemma_prefix_value_le(s, k + 1);
    } else {
        assert(s.subrange(0, k) =~= s);
    }
}

/// Reads a platform id written in decimal.
pub fn parse_id(s: &str) -> (r: Option<u64>)
    ensures
        r == id_of(s@),
{
    let n = s.unicode_len();
    if n == 0 {
        return None;
    }
    let mut v: u64 = 0;
    let mut i: usize = 0;
    while i < n
        invariant
            n == s@.len(),
            i <= n,
            all_digits(s@.subrange(0, i as int)),
            v == digits_value(s@.subrange(0, i as int)),
        decreases n - i,
    {
        let c = s.get_char(i);
        let ghost next = s@.subrange(0, i + 1);
        proof {
            assert(next.drop_last() =~= s@.subrange(0, i as int));
            assert(next.last() == c);
        }
        if c < '0' || c > '9' {
            assert(!is_digit(s@[i as int]));
            return None;
        }
        let d: u64 = (c as u32 - '0' as u32) as u64;
        assert(all_digits(next));
        if v > (u64::MAX - d) / 10 {
            proof {
                assert(v * 10 + d > u64::MAX) by (nonlinear_arith)
                    requires
                        v > (u64::MAX - d) / 10,
                        d <= 9,
                ;
                if all_digits(s@) {
                    lemma_prefix_value_le(s@, i + 1);
                }
            }
            return None;
        }
        assert(v * 10 + d <= u64::MAX) by (nonlinear_arith)
            requires
                v <= (u64::MAX - d) / 10,
                d <= 9,
        ;
        v = v * 10 + d;
        i = i + 1;
    }
    assert(s@.subrange(0, n as int) =~= s@);
    if v == 0 {
        None
    } else {
        Some(v)
    }
}

/// A link found in a message: its text and the ids it names (`None` where an
/// id is malformed).
#[derive(Clone, Debug)]
pub struct LinkTarget {
    pub url: String,
    pub channel_id: Option<u64>,
    pub message_id: Option<u64>,
}

impl View for LinkTarget {
    type V = (Seq<char>, Option<u64>, Option<u64>);

    open spec fn view(&self) -> (Seq<char>, Option<u64>, Option<u64>) {
        (self.url@, self.channel_id, self.message_id)
    }
}

/// The server id that a match names, if it can be read.
pub open spec fn server_of(g: Seq<Option<Seq<char>>>) -> Option<u64> {
    if g.len() >= 4 && g[1] is Some {
        id_of(g[1]->Some_0)
    } else {
        None
    }
}

/// What one match contributes: a target only where it has all of its groups
/// and names the server `guild_id`.
pub open spec fn target_of(g: Seq<Option<Seq<char>>>, guild_id: u64) -> Option<(Seq<char>, Option<u64>, Option<u64>)> {
    if g.len() >= 4 && g[0] is Some && g[1] is Some && g[2] is Some && g[3] is Some
        && server_of(g) == Some(guild_id) {
        Some((g[0]->Some_0, id_of(g[2]->Some_0), id_of(g[3]->Some_0)))
    } else {
        None
    }
}

/// The targets of all matches, in the order of the matches.
pub open spec fn targets_of(caps: Seq<Seq<Option<Seq<char>>>>, guild_id: u64) -> Seq<(Seq<char>, Option<u64>, Option<u64>)>
    decreases caps.len(),
{
    if caps.len() == 0 {
        Seq::empty()
    } else {
        let rest = targets_of(caps.drop_last(), guild_id);
        match target_of(caps.last(), guild_id) {
            Some(t) => rest.push(t),
            None => rest,
        }
    }
}

/// A link that names another server adds nothing, wherever it stands among
/// the matches.
pub proof fn lemma_other_server_ignored(
    before: Seq<Seq<Option<Seq<char>>>>,
    g: Seq<Option<Seq<char>>>,
    after: Seq<Seq<Option<Seq<char>>>>,
    guild_id: u64,
)
    requires
        server_of(g) != Some(guild_id),
    ensures
        targets_of(before.push(g) + after, guild_id) == targets_of(before + after, guild_id),
    decreases after.len(),
{
    if after.len() == 0 {
        assert(before.push(g) + after =~= before.push(g));
        assert(before + after =~= before);
        assert(before.push(g).drop_last() =~= before);
    } else {
        let a2 = after.drop_last();
        assert((before.push(g) + after).drop_last() =~= before.push(g) + a2);
        assert((before + after).drop_last() =~= before + a2);
        lemma_other_server_ignored(before, g, a2, guild_id);
    }
}

/// Matches none of which names server `guild_id` give no target.
pub proof fn lemma_no_target_without_own_server(caps: Seq<Seq<Option<Seq<char>>>>, guild_id: u64)
    requires
        forall|i: int| 0 <= i < caps.len() ==> server_of(#[trigger] caps[i]) != Some(guild_id),
    ensures
        targets_of(caps, guild_id).len() == 0,
    decreases caps.len(),
{
    if caps.len() > 0 {
        let rest = caps.drop_last();
        assert forall|i: int| 0 <= i < rest.len() implies server_of(#[trigger] rest[i]) != Some(guild_id) by {
            assert(rest[i] == caps[i]);
        }
        assert(server_of(caps[caps.len() - 1]) != Some(guild_id));
        lemma_no_target_without_own_server(rest, guild_id);
    }
}

fn group_id(g: &Vec<Option<String>>, k: usize) -> (r: Option<u64>)
    requires
        k < g@.len(),
        g@[k as int] is Some,
    ensures
        r == id_of(g@[k as int]->Some_0@),
{
    match &g[k] {
        Some(s) => parse_id(s.as_str()),
        None => None,
    }
}

fn target_from_groups(g: &Vec<Option<String>>, guild_id: u64) -> (r: Option<LinkTarget>)
    ensures
        match r {
            Some(t) => target_of(g@.map_values(|o: Option<String>| opt_view(o)), guild_id) == Some(t@),
            None => target_of(g@.map_values(|o: Option<String>| opt_view(o)), guild_id) is None,
        },
{
    let ghost gv = g@.map_values(|o: Option<String>| opt_view(o));
    if g.len() < 4 || g[0].is_none() || g[1].is_none() || g[2].is_none() || g[3].is_none() {
        return None;
    }
    assert(gv[1] == opt_view(g@[1]));
    if group_id(g, 1) != Some(guild_id) {
        return None;
    }
    let url = match &g[0] {
        Some(u) => u.clone(),
        None => String::new(),
    };
    assert(gv[0] == opt_view(g@[0]));
    assert(gv[2] == opt_view(g@[2]));
    assert(gv[3] == opt_view(g@[3]));
    Some(LinkTarget { url, channel_id: group_id(g, 2), message_id: group_id(g, 3) })
}

/// The links among `caps` (the groups of each match of the permalink
/// pattern) that name server `guild_id`, in order.
pub fn targets_from_captures(caps: &Vec<Vec<Option<String>>>, guild_id: u64) -> (r: Vec<LinkTarget>)
    ensures
        r@.map_values(|t: LinkTarget| t@) == targets_of(groups_view(caps@), guild_id),
{
    let mut r: Vec<LinkTarget> = Vec::new();
    let mut i: usize = 0;
    while i < caps.len()
        invariant
            i <= caps@.len(),
            r@.map_values(|t: LinkTarget| t@) == targets_of(groups_view(caps@.subrange(0, i as int)), guild_id),
        decreases caps@.len() - i,
    {
        let ghost pre = groups_view(caps@.subrange(0, i as int));
        let ghost cur = groups_view(caps@.subrange(0, i + 1));
        assert(cur.drop_last() =~= pre);
        assert(cur.last() == caps@[i as int]@.map_values(|o: Option<String>| opt_view(o)));
        match target_from_groups(&caps[i], guild_id) {
            Some(t) => {
                r.push(t);
                assert(r@.map_values(|t: LinkTarget| t@) =~= targets_of(pre, guild_id).push(t@));
            },
            None => {},
        }
        i = i + 1;
    }
    assert(caps@.subrange(0, caps@.len() as int) =~= caps@);
    r
}

/// The links in `content` that name server `guild_id`, in order of
/// appearance.
pub fn link_targets(content: &str, guild_id: u64) -> (r: Vec<LinkTarget>)
    ensures
        r@.map_values(|t: LinkTarget| t@) == targets_of(regex_captures(LINK_PATTERN@, content@), guild_id),
{
    match capture_groups(LINK_PATTERN, content) {
        Some(caps) => targets_from_captures(&caps, guild_id),
        None => {
            assert(false);
            Vec::new()
        },
    }
}

} // verus!
