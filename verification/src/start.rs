//! Which subdomain a tunnel gets, and what it connects to.
//!
//! A user owns the subdomains that were assigned to their account and those that they reserved. A
//! tunnel runs under one of them, or under a name one level below. Of the owned ones, a tunnel
//! without a request takes the first that no other tunnel on this machine uses.

use crate::auth::{auth_error_text, AuthError};
use crate::text::{
    ascii_lower, decimal, eq_ignore_ascii_case, find_char, first_index, join, joined,
    lemma_first_index, opt_text, push_decimal, texts, to_chars,
};
use crate::tunnel::TunnelConfig;
use vstd::prelude::*;

verus! {

/// What the account server says about the user.
#[derive(Debug)]
pub struct MeResponse {
    pub email: Option<String>,
    /// Random names that the account got, for short-lived tunnels.
    pub assigned_subdomains: Vec<String>,
    /// Names that the user claimed.
    pub reserved_subdomains: Vec<String>,
}

fn push_all(out: &mut Vec<String>, more: &Vec<String>)
    ensures
        texts(final(out)@) == texts(old(out)@) + texts(more@),
{
    let ghost start = texts(out@);
    let mut i: usize = 0;
    assert(texts(more@).take(0) =~= Seq::<Seq<char>>::empty());
    assert(texts(out@) =~= start + texts(more@).take(0));
    while i < more.len()
        invariant
            i <= more@.len(),
            texts(out@) == start + texts(more@).take(i as int),
        decreases more@.len() - i,
    {
        let ghost before = texts(out@);
        out.push(more[i].clone());
        assert(texts(out@) =~= before.push(more@[i as int]@));
        assert(texts(more@).take(i + 1) =~= texts(more@).take(i as int).push(more@[i as int]@));
        assert(texts(out@) =~= start + texts(more@).take(i + 1));
        i = i + 1;
    }
    assert(texts(more@).take(more@.len() as int) =~= texts(more@));
}

/// The subdomains that a user owns, as texts.
pub open spec fn owned_by(me: MeResponse) -> Seq<Seq<char>> {
    texts(me.assigned_subdomains@) + texts(me.reserved_subdomains@)
}

/// The subdomains that a user owns. The reserved ones come last: they are more memorable, and
/// better kept for work that others see.
pub fn owned_subdomains(me: &MeResponse) -> (r: Vec<String>)
    ensures
        texts(r@) == owned_by(*me),
{
    let mut owned: Vec<String> = Vec::new();
    push_all(&mut owned, &me.assigned_subdomains);
    push_all(&mut owned, &me.reserved_subdomains);
    assert(texts(owned@) =~= texts(me.assigned_subdomains@) + texts(me.reserved_subdomains@));
    owned
}

// ---------------------------------------------------------------------------
// Ownership
// ---------------------------------------------------------------------------
/// The name that has to be owned for a requested subdomain: the name itself, or what stands
/// behind its only dot. Deeper names cannot be had.
pub open spec fn namespace_of(requested: Seq<char>) -> Option<Seq<char>> {
    let dot = first_index(requested, 0, '.');
    if dot >= requested.len() {
        Some(requested)
    } else if first_index(requested, dot + 1, '.') >= requested.len() {
        Some(requested.skip(dot + 1))
    } else {
        None
    }
}

/// Whether a name is among the owned ones, whatever the case of its ASCII letters.
pub open spec fn is_among(owned: Seq<Seq<char>>, name: Seq<char>) -> bool {
    exists|i: int| 0 <= i < owned.len() && ascii_lower(#[trigger] owned[i]) == ascii_lower(name)
}

/// Whether a user who owns `owned` may use a requested subdomain.
pub open spec fn may_use(owned: Seq<Seq<char>>, requested: Seq<char>) -> bool {
    match namespace_of(requested) {
        Some(name) => is_among(owned, name),
        None => false,
    }
}

fn contains_name(owned: &Vec<String>, name: &str) -> (r: bool)
    ensures
        r == is_among(texts(owned@), name@),
{
    let mut i: usize = 0;
    while i < owned.len()
        invariant
            i <= owned@.len(),
            forall|j: int|
                0 <= j < i ==> ascii_lower(#[trigger] texts(owned@)[j]) != ascii_lower(name@),
        decreases owned@.len() - i,
    {
        assert(texts(owned@)[i as int] == owned@[i as int]@);
        if eq_ignore_ascii_case(owned[i].as_str(), name) {
            return true;
        }
        i = i + 1;
    }
    false
}

/// Whether a user may use a requested subdomain: one that they own (`dev`), or a single level
/// below one (`talk.dev`).
pub fn owns_subdomain(owned: &Vec<String>, requested: &str) -> (r: bool)
    ensures
        r == may_use(texts(owned@), requested@),
{
    let chars = to_chars(requested);
    let len = chars.len();
    let dot = find_char(&chars, 0, '.');
    if dot >= len {
        return contains_name(owned, requested);
    }
    let second = find_char(&chars, dot + 1, '.');
    if second < len {
        return false;
    }
    assert(requested@.skip(dot + 1) =~= requested@.subrange(dot + 1, len as int));
    contains_name(owned, requested.substring_char(dot + 1, len))
}

// ---------------------------------------------------------------------------
// Messages
// ---------------------------------------------------------------------------
/// One line for a subdomain that can be used.
pub open spec fn usable_line(name: Seq<char>) -> Seq<char> {
    "  - "@ + name + ".local.dev (and *."@ + name + ".local.dev)"@
}

/// One line for a subdomain that is busy.
pub open spec fn busy_line(name: Seq<char>) -> Seq<char> {
    "  - "@ + name + ".local.dev"@
}

/// The message for a subdomain that the user does not own.
pub open spec fn not_owned_message(requested: Seq<char>, owned: Seq<Seq<char>>) -> Seq<char> {
    "You don't own '"@ + requested + ".local.dev'. Subdomains you can use:\n"@ + (if owned.len()
        == 0 {
        "  (none yet — try `dodev login` then re-run)"@
    } else {
        joined(owned.map_values(|s: Seq<char>| usable_line(s)), "\n"@)
    })
        + "\n\nFor nested subdomains, claim a namespace at https://local.dev/dashboard/subdomains then run `dodev local http <port> -s <leaf>.<namespace>` — e.g. `talk.dev`, `pbx.dev`."@
}

/// The message for a requested subdomain that another tunnel uses.
pub open spec fn in_use_message(requested: Seq<char>) -> Seq<char> {
    "'"@ + requested
        + ".local.dev' is already in use by another dodev tunnel on this machine. Stop that one (Ctrl+C) or pick a different subdomain with -s."@
}

/// The message for an account without subdomains.
pub open spec fn none_assigned_message() -> Seq<char> {
    "No subdomains assigned to your account yet. Try `dodev login` to refresh, or contact support@do.dev."@
}

/// The message for an account whose subdomains are all busy.
pub open spec fn all_in_use_message(owned: Seq<Seq<char>>) -> Seq<char> {
    "All "@ + decimal(owned.len())
        + " of your subdomains are in use by other dodev tunnels on this machine:\n"@ + joined(
        owned.map_values(|s: Seq<char>| busy_line(s)),
        "\n"@,
    )
        + "\n\nStop one with Ctrl+C, or upgrade for more concurrent tunnels: https://local.dev/pricing"@
}

fn usable_lines(owned: &Vec<String>) -> (r: Vec<String>)
    ensures
        texts(r@) == texts(owned@).map_values(|s: Seq<char>| usable_line(s)),
{
    let mut lines: Vec<String> = Vec::new();
    let mut i: usize = 0;
    while i < owned.len()
        invariant
            i <= owned@.len(),
            lines@.len() == i,
            forall|j: int| 0 <= j < i ==> (#[trigger] lines@[j])@ == usable_line(owned@[j]@),
        decreases owned@.len() - i,
    {
        let mut line = "  - ".to_owned();
        line.append(owned[i].as_str());
        line.append(".local.dev (and *.");
        line.append(owned[i].as_str());
        line.append(".local.dev)");
        lines.push(line);
        i = i + 1;
    }
    assert(texts(lines@) =~= texts(owned@).map_values(|s: Seq<char>| usable_line(s)));
    lines
}

fn busy_lines(owned: &Vec<String>) -> (r: Vec<String>)
    ensures
        texts(r@) == texts(owned@).map_values(|s: Seq<char>| busy_line(s)),
{
    let mut lines: Vec<String> = Vec::new();
    let mut i: usize = 0;
    while i < owned.len()
        invariant
            i <= owned@.len(),
            lines@.len() == i,
            forall|j: int| 0 <= j < i ==> (#[trigger] lines@[j])@ == busy_line(owned@[j]@),
        decreases owned@.len() - i,
    {
        let mut line = "  - ".to_owned();
        line.append(owned[i].as_str());
        line.append(".local.dev");
        lines.push(line);
        i = i + 1;
    }
    assert(texts(lines@) =~= texts(owned@).map_values(|s: Seq<char>| busy_line(s)));
    lines
}

fn explain_not_owned(requested: &str, owned: &Vec<String>) -> (r: String)
    ensures
        r@ == not_owned_message(requested@, texts(owned@)),
{
    let mut out = "You don't own '".to_owned();
    out.append(requested);
    out.append(".local.dev'. Subdomains you can use:\n");
    if owned.len() == 0 {
        out.append("  (none yet — try `dodev login` then re-run)");
    } else {
        let lines = usable_lines(owned);
        let list = join(&lines, "\n");
        out.append(list.as_str());
    }
    out.append(
        "\n\nFor nested subdomains, claim a namespace at https://local.dev/dashboard/subdomains then run `dodev local http <port> -s <leaf>.<namespace>` — e.g. `talk.dev`, `pbx.dev`.",
    );
    out
}

fn explain_in_use(requested: &str) -> (r: String)
    ensures
        r@ == in_use_message(requested@),
{
    let mut out = "'".to_owned();
    out.append(requested);
    out.append(
        ".local.dev' is already in use by another dodev tunnel on this machine. Stop that one (Ctrl+C) or pick a different subdomain with -s.",
    );
    out
}

fn explain_all_in_use(owned: &Vec<String>) -> (r: String)
    ensures
        r@ == all_in_use_message(texts(owned@)),
{
    let mut out = "All ".to_owned();
    push_decimal(&mut out, owned.len() as u64);
    out.append(" of your subdomains are in use by other dodev tunnels on this machine:\n");
    let lines = busy_lines(owned);
    let list = join(&lines, "\n");
    out.append(list.as_str());
    out.append(
        "\n\nStop one with Ctrl+C, or upgrade for more concurrent tunnels: https://local.dev/pricing",
    );
    out
}

// ---------------------------------------------------------------------------
// The choice
// ---------------------------------------------------------------------------
/// The subdomains to look at before one is chosen, or why none can be.
pub open spec fn probes_of(requested: Option<Seq<char>>, owned: Seq<Seq<char>>) -> Result<
    Seq<Seq<char>>,
    Seq<char>,
> {
    match requested {
        Some(name) => if may_use(owned, name) {
            Ok(seq![name])
        } else {
            Err(not_owned_message(name, owned))
        },
        None => Ok(owned),
    }
}

/// The subdomains whose locks have to be looked at before one is chosen: the requested one, or
/// all that the user owns. A requested one that they do not own is refused before.
pub fn names_to_probe(requested: Option<&str>, owned: &Vec<String>) -> (r: Result<
    Vec<String>,
    String,
>)
    ensures
        probes_of(
            match requested {
                Some(name) => Some(name@),
                None => None,
            },
            texts(owned@),
        ) == match r {
            Ok(names) => Ok::<Seq<Seq<char>>, Seq<char>>(texts(names@)),
            Err(e) => Err::<Seq<Seq<char>>, Seq<char>>(e@),
        },
{
    match requested {
        Some(name) => {
            if !owns_subdomain(owned, name) {
                return Err(explain_not_owned(name, owned));
            }
            let mut names: Vec<String> = Vec::new();
            names.push(name.to_owned());
            assert(texts(names@) =~= seq![name@]);
            Ok(names)
        },
        None => {
            let mut names: Vec<String> = Vec::new();
            push_all(&mut names, owned);
            assert(texts(names@) =~= texts(owned@));
            Ok(names)
        },
    }
}

/// The first position from `from` on that is not in use, or the length.
pub open spec fn first_free(in_use: Seq<bool>, from: int) -> int
    decreases in_use.len() - from,
{
    if from >= in_use.len() || !in_use[from] {
        from
    } else {
        first_free(in_use, from + 1)
    }
}

fn find_free(in_use: &Vec<bool>) -> (r: usize)
    ensures
        r <= in_use@.len(),
        r == first_free(in_use@, 0),
{
    let mut i: usize = 0;
    while i < in_use.len() && in_use[i]
        invariant
            i <= in_use@.len(),
            first_free(in_use@, 0) == first_free(in_use@, i as int),
        decreases in_use@.len() - i,
    {
        i = i + 1;
    }
    i
}

/// The subdomain for a tunnel, or why there is none. `in_use` tells for each probed subdomain
/// whether another tunnel uses it.
pub open spec fn choice_of(
    requested: Option<Seq<char>>,
    owned: Seq<Seq<char>>,
    in_use: Seq<bool>,
) -> Result<Seq<char>, Seq<char>> {
    match requested {
        Some(name) => if !may_use(owned, name) {
            Err(not_owned_message(name, owned))
        } else if in_use[0] {
            Err(in_use_message(name))
        } else {
            Ok(name)
        },
        None => if first_free(in_use, 0) < owned.len() {
            Ok(owned[first_free(in_use, 0)])
        } else if owned.len() == 0 {
            Err(none_assigned_message())
        } else {
            Err(all_in_use_message(owned))
        },
    }
}

/// The subdomain for a tunnel, or the message that tells why there is none.
pub fn choose_subdomain(
    requested: Option<String>,
    owned: &Vec<String>,
    in_use: &Vec<bool>,
) -> (r: Result<String, String>)
    requires
        in_use@.len() == (if requested is Some {
            1
        } else {
            owned@.len()
        }),
    ensures
        choice_of(opt_text(requested), texts(owned@), in_use@) == match r {
            Ok(name) => Ok::<Seq<char>, Seq<char>>(name@),
            Err(e) => Err::<Seq<char>, Seq<char>>(e@),
        },
{
    match requested {
        Some(name) => {
            if !owns_subdomain(owned, name.as_str()) {
                Err(explain_not_owned(name.as_str(), owned))
            } else if in_use[0] {
                Err(explain_in_use(name.as_str()))
            } else {
                Ok(name)
            }
        },
        None => {
            let i = find_free(in_use);
            if i < owned.len() {
                assert(texts(owned@)[i as int] == owned@[i as int]@);
                return Ok(owned[i].clone());
            }
            if owned.len() == 0 {
                Err(
                    "No subdomains assigned to your account yet. Try `dodev login` to refresh, or contact support@do.dev.".to_owned(),
                )
            } else {
                Err(explain_all_in_use(owned))
            }
        },
    }
}

/// The line that tells which subdomain was chosen.
pub fn chosen_line(subdomain: &str) -> (r: String)
    ensures
        r@ == "  Using subdomain: "@ + subdomain@ + ".local.dev"@,
{
    let mut out = "  Using subdomain: ".to_owned();
    out.append(subdomain);
    out.append(".local.dev");
    out
}

// ---------------------------------------------------------------------------
// The tunnel
// ---------------------------------------------------------------------------
/// Where the relay of a subdomain listens.
pub open spec fn relay_url(subdomain: Seq<char>) -> Seq<char> {
    "wss://"@ + subdomain + ".local.dev/_dodev/connect"@
}

/// Whether a tunnel runs under a subdomain.
pub open spec fn runs_under(
    t: TunnelConfig,
    token: String,
    subdomain: String,
    host: String,
    port: u16,
) -> bool {
    &&& t.ws_url@ == relay_url(subdomain@)
    &&& t.token == token
    &&& t.subdomain == subdomain
    &&& t.local_host == host
    &&& t.local_port == port
}

/// The tunnel for a chosen subdomain.
pub fn tunnel_for(token: String, subdomain: String, host: String, port: u16) -> (r: TunnelConfig)
    ensures
        runs_under(r, token, subdomain, host, port),
{
    let mut ws_url = "wss://".to_owned();
    ws_url.append(subdomain.as_str());
    ws_url.append(".local.dev/_dodev/connect");
    TunnelConfig { ws_url, token, subdomain, local_host: host, local_port: port }
}

/// The tunnel for a relay that the user named: neither ownership nor locks are looked at.
pub fn tunnel_to(
    ws_url: String,
    token: String,
    subdomain: Option<String>,
    host: String,
    port: u16,
) -> (r: TunnelConfig)
    ensures
        goes_to(r, ws_url, token, subdomain, host, port),
{
    let chosen = match subdomain {
        Some(s) => s,
        None => "lab".to_owned(),
    };
    TunnelConfig { ws_url, token, subdomain: chosen, local_host: host, local_port: port }
}

/// What a tunnel is started with.
#[derive(Debug)]
pub enum StartPlan {
    /// Connect at once.
    Connect(TunnelConfig),
    /// Ask the account server which subdomains the user owns, and choose one.
    Choose { token: String, requested: Option<String>, host: String, port: u16 },
}

/// Whether a tunnel goes to `ws_url`, under the subdomain `lab` unless another was requested.
pub open spec fn goes_to(
    t: TunnelConfig,
    ws_url: String,
    token: String,
    subdomain: Option<String>,
    host: String,
    port: u16,
) -> bool {
    &&& t.ws_url == ws_url
    &&& t.token == token
    &&& t.subdomain@ == match subdomain {
        Some(s) => s@,
        None => "lab"@,
    }
    &&& t.local_host == host
    &&& t.local_port == port
}

/// How to start a tunnel: a user without a token has none, and a relay that the user named wins
/// over everything that the account says.
pub fn plan_start(
    token: Result<String, AuthError>,
    ws_url: Option<String>,
    subdomain: Option<String>,
    host: String,
    port: u16,
) -> (r: Result<StartPlan, String>)
    ensures
        match token {
            Err(_) => r matches Err(e) && e@ == auth_error_text(),
            Ok(t) => match ws_url {
                Some(url) => match r {
                    Ok(StartPlan::Connect(c)) => goes_to(c, url, t, subdomain, host, port),
                    _ => false,
                },
                None => r == Ok::<StartPlan, String>(
                    (StartPlan::Choose { token: t, requested: subdomain, host, port }),
                ),
            },
        },
{
    let token = match token {
        Ok(t) => t,
        Err(e) => {
            return Err(e.message());
        },
    };
    match ws_url {
        Some(url) => Ok(StartPlan::Connect(tunnel_to(url, token, subdomain, host, port))),
        None => Ok(StartPlan::Choose { token, requested: subdomain, host, port }),
    }
}

// ---------------------------------------------------------------------------
// Laws
// ---------------------------------------------------------------------------
proof fn lemma_first_free(in_use: Seq<bool>, from: int)
    requires
        0 <= from <= in_use.len(),
    ensures
        from <= first_free(in_use, from) <= in_use.len(),
        forall|i: int| from <= i < first_free(in_use, from) ==> in_use[i],
        first_free(in_use, from) < in_use.len() ==> !in_use[first_free(in_use, from)],
    decreases in_use.len() - from,
{
    if from < in_use.len() && in_use[from] {
        lemma_first_free(in_use, from + 1);
    }
}

/// A requested subdomain is either the one that the tunnel gets, or the tunnel gets none; it gets
/// it exactly if the user may use it and no other tunnel does.
pub proof fn request_is_honoured_or_refused(
    name: Seq<char>,
    owned: Seq<Seq<char>>,
    in_use: Seq<bool>,
)
    requires
        in_use.len() == 1,
    ensures
        choice_of(Some(name), owned, in_use) is Ok <==> may_use(owned, name) && !in_use[0],
        choice_of(Some(name), owned, in_use) matches Ok(s) ==> s == name,
{
}

/// A tunnel without a request gets an owned subdomain that no other tunnel uses, and the first of
/// these; it gets one exactly if there is one.
pub proof fn first_free_subdomain_is_taken(owned: Seq<Seq<char>>, in_use: Seq<bool>)
    requires
        in_use.len() == owned.len(),
    ensures
        choice_of(None, owned, in_use) is Ok <==> exists|i: int|
            0 <= i < owned.len() && !#[trigger] in_use[i],
        choice_of(None, owned, in_use) matches Ok(s) ==> exists|i: int|
            0 <= i < owned.len() && s == owned[i] && !#[trigger] in_use[i] && forall|j: int|
                0 <= j < i ==> in_use[j],
{
    lemma_first_free(in_use, 0);
    let k = first_free(in_use, 0);
    if k < owned.len() {
        assert(!in_use[k]);
    }
}

/// As long as an assigned subdomain is free, no reserved one is taken without a request.
pub proof fn assigned_come_before_reserved(
    assigned: Seq<Seq<char>>,
    reserved: Seq<Seq<char>>,
    in_use: Seq<bool>,
    free: int,
)
    requires
        in_use.len() == assigned.len() + reserved.len(),
        0 <= free < assigned.len(),
        !in_use[free],
    ensures
        choice_of(None, assigned + reserved, in_use) matches Ok(s) && assigned.contains(s),
{
    lemma_first_free(in_use, 0);
    let k = first_free(in_use, 0);
    assert(k <= free);
    assert((assigned + reserved)[k] == assigned[k]);
}

/// Whoever owns a name without a dot may use every name one level below it.
pub proof fn owner_may_use_nested_names(
    owned: Seq<Seq<char>>,
    leaf: Seq<char>,
    name: Seq<char>,
)
    requires
        owned.contains(name),
        !leaf.contains('.'),
        !name.contains('.'),
    ensures
        may_use(owned, name),
        may_use(owned, leaf + "."@ + name),
{
    reveal_strlit(".");
    let k = choose|k: int| 0 <= k < owned.len() && owned[k] == name;
    assert(ascii_lower(owned[k]) == ascii_lower(name));
    lemma_first_index(name, 0, '.');
    let nested = leaf + "."@ + name;
    assert(nested[leaf.len() as int] == '.');
    lemma_first_index(nested, 0, '.');
    let dot = first_index(nested, 0, '.');
    if dot < leaf.len() {
        assert(leaf[dot] == nested[dot]);
    }
    assert(dot == leaf.len());
    lemma_first_index(nested, dot + 1, '.');
    let second = first_index(nested, dot + 1, '.');
    if second < nested.len() {
        assert(name[second - dot - 1] == nested[second]);
    }
    assert(nested.skip(dot + 1) =~= name);
}

/// Tunnels of different subdomains connect to different addresses.
pub proof fn relay_urls_are_distinct(a: Seq<char>, b: Seq<char>)
    requires
        relay_url(a) == relay_url(b),
    ensures
        a == b,
{
    let start = "wss://"@.len() as int;
    let end = ".local.dev/_dodev/connect"@.len();
    assert(relay_url(a).len() == start + a.len() + end);
    assert(relay_url(b).len() == start + b.len() + end);
    assert(relay_url(a).subrange(start, start + a.len()) =~= a);
    assert(relay_url(b).subrange(start, start + b.len()) =~= b);
}

/// Names with two or more dots are refused, whoever asks.
pub proof fn deep_names_are_refused(
    owned: Seq<Seq<char>>,
    requested: Seq<char>,
    first: int,
    second: int,
)
    requires
        0 <= first < second < requested.len(),
        requested[first] == '.',
        requested[second] == '.',
    ensures
        !may_use(owned, requested),
{
    lemma_first_index(requested, 0, '.');
    let dot = first_index(requested, 0, '.');
    lemma_first_index(requested, dot + 1, '.');
}

} // verus!
