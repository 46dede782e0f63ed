//! Users: what authenticates them, which names they may use, how they log in, and which of their
//! tunnels run.

use crate::active::{
    acquire_error, exists_by_probe, lock_check_of, lock_name, lock_text, verdict_of, LockCheck,
    LockStep,
};
use crate::auth::token_of;
use crate::config::{
    config_or_empty, session_of, with_api_key, with_session, without_api_key, without_session,
    AppConfig, AuthModel, ConfigModel, SessionInfo, SessionModel,
};
use crate::laws::texts::{
    before_stops_at_the_first, only_case_differs, only_integers_are_read, signs_are_read,
    spaces_part_words, trimming_takes_the_outer_spaces,
};
use crate::login::{callback_of, callback_of_pairs, greeted, login_url, param_of, target_of};
use crate::outside::web_address::url_of;
use crate::start::{
    choice_of, goes_to, is_among, may_use, namespace_of, owned_by, probes_of, relay_url,
    runs_under, MeResponse,
};
use crate::text::{
    ascii_lower, before_char, decimal, first_index, is_space, joined, lemma_decimal_spells,
    lemma_first_index, trimmed, words,
};
use crate::tunnel::TunnelConfig;
use vstd::prelude::*;

verus! {

// ---------------------------------------------------------------------------
// Names
// ---------------------------------------------------------------------------
/// A name that a user may use is an owned one: from its start, or from behind its only dot, it has
/// the length of an owned name and its letters, up to ASCII case. The result tells which owned name,
/// and where it starts.
pub proof fn only_owned_names_may_be_used(owned: Seq<Seq<char>>, requested: Seq<char>) -> (r: (
    int,
    int,
))
    requires
        may_use(owned, requested),
    ensures
        0 <= r.0 < owned.len(),
        0 <= r.1 <= requested.len(),
        r.1 == 0 || requested[r.1 - 1] == '.',
        forall|k: int| 0 <= k < requested.len() && k != r.1 - 1 ==> #[trigger] requested[k] != '.',
        owned[r.0].len() == requested.len() - r.1,
        forall|k: int|
            0 <= k < owned[r.0].len() ==> ({
                let (a, b) = (#[trigger] owned[r.0][k], requested[r.1 + k]);
                a == b || ('A' <= a && a <= 'Z' && b as u32 == a as u32 + 32) || ('A' <= b && b
                    <= 'Z' && a as u32 == b as u32 + 32)
            }),
{
    lemma_first_index(requested, 0, '.');
    let dot = first_index(requested, 0, '.');
    let from = if dot >= requested.len() {
        0int
    } else {
        dot + 1
    };
    if dot < requested.len() {
        lemma_first_index(requested, dot + 1, '.');
    }
    let name = requested.skip(from);
    assert(requested.skip(0) =~= requested);
    assert(namespace_of(requested) == Some(name));
    assert(is_among(owned, name));
    let i = choose|i: int|
        0 <= i < owned.len() && ascii_lower(#[trigger] owned[i]) == ascii_lower(name);
    only_case_differs(owned[i], name);
    assert forall|k: int| 0 <= k < owned[i].len() implies ({
        let (a, b) = (#[trigger] owned[i][k], requested[from + k]);
        a == b || ('A' <= a && a <= 'Z' && b as u32 == a as u32 + 32) || ('A' <= b && b <= 'Z' && a
            as u32 == b as u32 + 32)
    }) by {
        assert(name[k] == requested[from + k]);
    }
    (i, from)
}

/// A user may use a name whose letters, from its start or from behind its only dot, are those of an
/// owned name, up to ASCII case.
pub proof fn owned_names_may_be_used(
    owned: Seq<Seq<char>>,
    requested: Seq<char>,
    i: int,
    from: int,
)
    requires
        0 <= i < owned.len(),
        0 <= from <= requested.len(),
        from == 0 || requested[from - 1] == '.',
        forall|k: int| 0 <= k < requested.len() && k != from - 1 ==> #[trigger] requested[k] != '.',
        owned[i].len() == requested.len() - from,
        forall|k: int|
            0 <= k < owned[i].len() ==> ({
                let (a, b) = (#[trigger] owned[i][k], requested[from + k]);
                a == b || ('A' <= a && a <= 'Z' && b as u32 == a as u32 + 32) || ('A' <= b && b
                    <= 'Z' && a as u32 == b as u32 + 32)
            }),
    ensures
        may_use(owned, requested),
{
    lemma_first_index(requested, 0, '.');
    let dot = first_index(requested, 0, '.');
    if from == 0 {
        assert(dot == requested.len());
    } else {
        assert(dot == from - 1);
        lemma_first_index(requested, from, '.');
    }
    let name = requested.skip(from);
    assert(requested.skip(0) =~= requested);
    assert(namespace_of(requested) == Some(name));
    only_case_differs(owned[i], name);
    assert(ascii_lower(owned[i]) == ascii_lower(name));
    assert(is_among(owned, name));
}

/// A user owns what was assigned to them, then what they reserved, each in its order.
pub proof fn assigned_and_reserved_names_are_owned(me: MeResponse, i: int)
    ensures
        owned_by(me).len() == me.assigned_subdomains@.len() + me.reserved_subdomains@.len(),
        0 <= i < me.assigned_subdomains@.len() ==> owned_by(me)[i] == me.assigned_subdomains@[i]@,
        0 <= i < me.reserved_subdomains@.len() ==> owned_by(me)[me.assigned_subdomains@.len() + i]
            == me.reserved_subdomains@[i]@,
{
}

/// Without a request all owned names are looked at, in order; a requested one is looked at alone,
/// and only if the user may use it.
pub proof fn what_is_looked_at(name: Seq<char>, owned: Seq<Seq<char>>)
    ensures
        probes_of(None, owned) == Ok::<Seq<Seq<char>>, Seq<char>>(owned),
        may_use(owned, name) ==> probes_of(Some(name), owned) == Ok::<Seq<Seq<char>>, Seq<char>>(
            seq![name],
        ),
        !may_use(owned, name) ==> probes_of(Some(name), owned) is Err,
{
}

/// Whoever asks for a name that they may not use is told so by name, with all names that they may
/// use; the same before and after a look at the locks.
pub proof fn names_of_others_are_refused(
    name: Seq<char>,
    owned: Seq<Seq<char>>,
    in_use: Seq<bool>,
    lines: Seq<Seq<char>>,
)
    requires
        !may_use(owned, name),
        owned.len() > 0,
        lines.len() == owned.len(),
        forall|i: int|
            0 <= i < owned.len() ==> #[trigger] lines[i] == "  - "@ + owned[i]
                + ".local.dev (and *."@ + owned[i] + ".local.dev)"@,
    ensures
        choice_of(Some(name), owned, in_use) == Err::<Seq<char>, Seq<char>>(
            "You don't own '"@ + name + ".local.dev'. Subdomains you can use:\n"@ + joined(
                lines,
                "\n"@,
            )
                + "\n\nFor nested subdomains, claim a namespace at https://local.dev/dashboard/subdomains then run `dodev local http <port> -s <leaf>.<namespace>` — e.g. `talk.dev`, `pbx.dev`."@,
        ),
        probes_of(Some(name), owned) is Err,
        probes_of(Some(name), owned)->Err_0 == choice_of(Some(name), owned, in_use)->Err_0,
{
    assert(lines =~= owned.map_values(|s: Seq<char>| crate::start::usable_line(s)));
}

/// Whoever owns nothing is told so.
pub proof fn nothing_owned(name: Seq<char>, in_use: Seq<bool>)
    ensures
        choice_of(None, Seq::empty(), Seq::empty()) == Err::<Seq<char>, Seq<char>>(
            "No subdomains assigned to your account yet. Try `dodev login` to refresh, or contact support@do.dev."@,
        ),
        choice_of(Some(name), Seq::empty(), in_use) == Err::<Seq<char>, Seq<char>>(
            "You don't own '"@ + name + ".local.dev'. Subdomains you can use:\n"@
                + "  (none yet — try `dodev login` then re-run)"@
                + "\n\nFor nested subdomains, claim a namespace at https://local.dev/dashboard/subdomains then run `dodev local http <port> -s <leaf>.<namespace>` — e.g. `talk.dev`, `pbx.dev`."@,
        ),
{
}

/// A name that another tunnel uses is refused by name; if all owned names are used, all are told.
pub proof fn busy_names_are_refused(
    name: Seq<char>,
    owned: Seq<Seq<char>>,
    in_use: Seq<bool>,
    lines: Seq<Seq<char>>,
)
    requires
        in_use.len() > 0,
        forall|i: int| 0 <= i < in_use.len() ==> #[trigger] in_use[i],
        lines.len() == owned.len(),
        forall|i: int|
            0 <= i < owned.len() ==> #[trigger] lines[i] == "  - "@ + owned[i] + ".local.dev"@,
    ensures
        may_use(owned, name) ==> choice_of(Some(name), owned, in_use) == Err::<
            Seq<char>,
            Seq<char>,
        >(
            "'"@ + name
                + ".local.dev' is already in use by another dodev tunnel on this machine. Stop that one (Ctrl+C) or pick a different subdomain with -s."@,
        ),
        owned.len() == in_use.len() ==> choice_of(None, owned, in_use) == Err::<
            Seq<char>,
            Seq<char>,
        >(
            "All "@ + decimal(owned.len())
                + " of your subdomains are in use by other dodev tunnels on this machine:\n"@
                + joined(lines, "\n"@)
                + "\n\nStop one with Ctrl+C, or upgrade for more concurrent tunnels: https://local.dev/pricing"@,
        ),
{
    assert(in_use[0]);
    lemma_none_free(in_use, 0);
    assert(lines =~= owned.map_values(|s: Seq<char>| crate::start::busy_line(s)));
}

proof fn lemma_none_free(in_use: Seq<bool>, from: int)
    requires
        0 <= from <= in_use.len(),
        forall|i: int| 0 <= i < in_use.len() ==> #[trigger] in_use[i],
    ensures
        crate::start::first_free(in_use, from) == in_use.len(),
    decreases in_use.len() - from,
{
    if from < in_use.len() {
        lemma_none_free(in_use, from + 1);
    }
}

/// A tunnel connects to the relay of its name, with the token and the local address that it was
/// given.
pub proof fn tunnels_connect_to_their_relay(
    t: TunnelConfig,
    token: String,
    subdomain: String,
    host: String,
    port: u16,
)
    requires
        runs_under(t, token, subdomain, host, port),
    ensures
        t.ws_url@ == "wss://"@ + subdomain@ + ".local.dev/_dodev/connect"@,
        t.token@ == token@,
        t.subdomain@ == subdomain@,
        t.local_host@ == host@,
        t.local_port == port,
{
}

/// A tunnel to a relay that the user named connects there, with the token and the local address
/// that it was given.
pub proof fn tunnels_connect_to_the_named_relay(
    t: TunnelConfig,
    ws_url: String,
    token: String,
    subdomain: Option<String>,
    host: String,
    port: u16,
)
    requires
        goes_to(t, ws_url, token, subdomain, host, port),
    ensures
        t.ws_url@ == ws_url@,
        t.token@ == token@,
        subdomain matches Some(s) ==> t.subdomain@ == s@,
        subdomain is None ==> t.subdomain@ == "lab"@,
        t.local_host@ == host@,
        t.local_port == port,
{
}

// ---------------------------------------------------------------------------
// Credentials
// ---------------------------------------------------------------------------
/// What authenticates a user, in order: the API key of the environment, its session token, the
/// session token of the config file, its API key. Empty ones do not count.
pub proof fn tokens_by_priority(
    env_api_key: Option<Seq<char>>,
    env_session: Option<Seq<char>>,
    config: ConfigModel,
)
    ensures
        ({
            let r = token_of(env_api_key, env_session, config);
            let key_there = env_api_key matches Some(t) && t.len() > 0;
            let token_there = env_session matches Some(t) && t.len() > 0;
            let saved_token = config.auth matches Some(a) && (a.session_token matches Some(t)
                && t.len() > 0);
            let saved_key = config.auth matches Some(a) && (a.api_key matches Some(t) && t.len()
                > 0);
            &&& key_there ==> r == env_api_key
            &&& !key_there && token_there ==> r == env_session
            &&& !key_there && !token_there && saved_token ==> r
                == config.auth.unwrap().session_token
            &&& !key_there && !token_there && !saved_token && saved_key ==> r
                == config.auth.unwrap().api_key
            &&& !key_there && !token_there && !saved_token && !saved_key ==> r is None
        }),
{
}

/// Saving a session writes its four fields, and nothing else.
pub proof fn sessions_are_written(c: ConfigModel, s: SessionModel)
    ensures
        with_session(c, s).defaults == c.defaults,
        with_session(c, s).auth matches Some(a) && a.session_token == Some(s.session_token)
            && a.user_id == Some(s.user_id) && a.email == Some(s.email) && a.name == Some(s.name)
            && a.api_key == (if c.auth is Some {
            c.auth.unwrap().api_key
        } else {
            None
        }),
{
}

/// Clearing a session clears its four fields, and nothing else.
pub proof fn sessions_are_cleared(c: ConfigModel)
    ensures
        without_session(c).defaults == c.defaults,
        without_session(c).auth is Some <==> c.auth is Some,
        without_session(c).auth matches Some(a) ==> a.session_token is None && a.user_id is None
            && a.email is None && a.name is None && a.api_key == c.auth.unwrap().api_key,
{
}

/// Saving an API key writes one field, and nothing else.
pub proof fn keys_are_written(c: ConfigModel, key: Seq<char>)
    ensures
        with_api_key(c, key).defaults == c.defaults,
        with_api_key(c, key).auth matches Some(a) && a.api_key == Some(key),
        c.auth matches Some(old_auth) ==> (with_api_key(c, key).auth matches Some(a)
            && a.session_token == old_auth.session_token && a.user_id == old_auth.user_id
            && a.email == old_auth.email && a.name == old_auth.name),
        c.auth is None ==> (with_api_key(c, key).auth matches Some(a) && a.session_token is None
            && a.user_id is None && a.email is None && a.name is None),
{
}

/// Clearing an API key clears one field, and nothing else.
pub proof fn keys_are_cleared(c: ConfigModel)
    ensures
        without_api_key(c).defaults == c.defaults,
        without_api_key(c).auth is Some <==> c.auth is Some,
        without_api_key(c).auth matches Some(a) ==> ({
            let b = c.auth.unwrap();
            a.api_key is None && a.session_token == b.session_token && a.user_id == b.user_id
                && a.email == b.email && a.name == b.name
        }),
{
}

/// There is a session exactly if there is a token that is not empty; the other fields of the
/// session are those of the file, or empty.
pub proof fn sessions_are_read(c: ConfigModel)
    ensures
        session_of(c) is Some <==> (c.auth matches Some(a) && (a.session_token matches Some(t)
            && t.len() > 0)),
        session_of(c) matches Some(s) ==> ({
            let a = c.auth.unwrap();
            &&& Some(s.session_token) == a.session_token
            &&& a.user_id is Some ==> Some(s.user_id) == a.user_id
            &&& a.user_id is None ==> s.user_id.len() == 0
            &&& a.email is Some ==> Some(s.email) == a.email
            &&& a.email is None ==> s.email.len() == 0
            &&& a.name is Some ==> Some(s.name) == a.name
            &&& a.name is None ==> s.name.len() == 0
        }),
{
}

/// A configuration as texts holds the texts of its fields, each under its own name.
pub proof fn configurations_as_texts(c: AppConfig, s: SessionInfo)
    ensures
        config_or_empty(Some(c)) == c@,
        config_or_empty(None).auth is None && config_or_empty(None).defaults is None,
        c@.auth is Some <==> c.auth is Some,
        c@.defaults is Some <==> c.defaults is Some,
        c.defaults matches Some(d) ==> (d.relay_url matches Some(u) ==> c@.defaults == Some(
            Some(u@),
        )) && (d.relay_url is None ==> c@.defaults == Some(None::<Seq<char>>)),
        c.auth matches Some(a) ==> ({
            let m: AuthModel = c@.auth.unwrap();
            &&& (a.api_key matches Some(t) ==> m.api_key == Some(t@))
            &&& (a.api_key is None ==> m.api_key is None)
            &&& (a.session_token matches Some(t) ==> m.session_token == Some(t@))
            &&& (a.session_token is None ==> m.session_token is None)
            &&& (a.user_id matches Some(t) ==> m.user_id == Some(t@))
            &&& (a.user_id is None ==> m.user_id is None)
            &&& (a.email matches Some(t) ==> m.email == Some(t@))
            &&& (a.email is None ==> m.email is None)
            &&& (a.name matches Some(t) ==> m.name == Some(t@))
            &&& (a.name is None ==> m.name is None)
        }),
        s@.session_token == s.session_token@ && s@.user_id == s.user_id@ && s@.email == s.email@
            && s@.name == s.name@,
{
}

// ---------------------------------------------------------------------------
// Locks
// ---------------------------------------------------------------------------
/// A lock file is named after its subdomain, and holds the process id on a line of its own.
pub proof fn locks_tell_name_and_process(subdomain: Seq<char>, pid: u32)
    ensures
        lock_name(subdomain) == subdomain + ".lock"@,
        lock_text(pid) == decimal(pid as nat).push('\n'),
{
    reveal_strlit("\n");
    assert(lock_text(pid) =~= decimal(pid as nat).push('\n'));
}

/// A number in a lock file leads to the process of that number, whatever space is around it.
pub proof fn numbers_in_locks_are_probed(before: Seq<char>, n: nat, after: Seq<char>)
    requires
        forall|i: int| 0 <= i < before.len() ==> is_space(#[trigger] before[i]),
        forall|i: int| 0 <= i < after.len() ==> is_space(#[trigger] after[i]),
    ensures
        n <= 2147483647 ==> lock_check_of(Some(before + decimal(n) + after)) == LockCheck::Probe(
            n as i32,
        ),
        n > 2147483647 ==> lock_check_of(Some(before + decimal(n) + after)) == LockCheck::Garbled,
{
    let d = decimal(n);
    let text = before + d + after;
    lemma_decimal_spells(n);
    assert forall|i: int| 0 <= i < d.len() implies !is_space(#[trigger] d[i]) by {
        assert(crate::text::is_digit(d[i]));
    }
    let (a, b) = trimming_takes_the_outer_spaces(text);
    let from = before.len() as int;
    assert(text[from] == d[0]);
    assert(!is_space(text[from]));
    assert(a <= from < b);
    if a < from {
        assert(text[a] == before[a]);
    }
    let to = from + d.len();
    assert(text[to - 1] == d[d.len() - 1]);
    assert(!is_space(text[to - 1]));
    if b > to {
        assert(text[b - 1] == after[b - 1 - to]);
    }
    assert(text.subrange(a, b) =~= d);
    signs_are_read(n);
}

/// A lock file that holds anything but digits, signs and space names no process, and neither does
/// one without a digit. No file is no lock.
pub proof fn garbled_locks_name_no_process(text: Seq<char>, i: int)
    ensures
        lock_check_of(None) == LockCheck::Free,
        !(lock_check_of(Some(text)) is Free),
        0 <= i < text.len() && !is_space(text[i]) && !(48 <= text[i] as u32 <= 57) && text[i] != '-'
            && text[i] != '+' ==> lock_check_of(Some(text)) == LockCheck::Garbled,
        (forall|k: int| 0 <= k < text.len() ==> !(48 <= (#[trigger] text[k]) as u32 <= 57))
            ==> lock_check_of(Some(text)) == LockCheck::Garbled,
{
    let (a, b) = trimming_takes_the_outer_spaces(text);
    let t = trimmed(text);
    only_integers_are_read(t);
    if 0 <= i < text.len() && !is_space(text[i]) && !(48 <= text[i] as u32 <= 57) && text[i] != '-'
        && text[i] != '+' {
        assert(a <= i < b);
        assert(t[i - a] == text[i]);
    }
    if (forall|k: int| 0 <= k < text.len() ==> !(48 <= (#[trigger] text[k]) as u32 <= 57))
        && t.len() > 0 {
        assert(t[0] == text[a]);
        if t.len() > 1 {
            assert(t[1] == text[a + 1]);
        }
    }
}

/// A name is in use exactly if its lock names a live process; a lock that names none, or a dead
/// one, is removed, and no other.
pub proof fn live_locks_count(check: LockCheck, alive: bool)
    ensures
        check is Free ==> !verdict_of(check, alive).in_use && !verdict_of(check, alive).remove,
        check is Garbled ==> !verdict_of(check, alive).in_use && verdict_of(check, alive).remove,
        check is Probe ==> verdict_of(check, alive).in_use == alive && verdict_of(
            check,
            alive,
        ).remove == !alive,
{
}

/// A process that cannot be signalled is dead only if the error says that there is none.
pub proof fn only_missing_processes_are_dead(result: i32, errno: i32)
    ensures
        exists_by_probe(0, errno),
        result != 0 && errno != 3 ==> exists_by_probe(result, errno),
        result != 0 ==> !exists_by_probe(result, 3),
{
}

/// What could not be done about a lock file is told with the path and the error.
pub proof fn lock_errors_tell_the_step(path: Seq<char>, e: Seq<char>)
    ensures
        acquire_error(LockStep::Create, path, e) == "create "@ + path + ": "@ + e,
        acquire_error(LockStep::Write, path, e) == "write "@ + path + ": "@ + e,
{
}

// ---------------------------------------------------------------------------
// Logging in
// ---------------------------------------------------------------------------
/// The browser is sent to the account server, with the port to come back to.
pub proof fn browsers_come_back_to_the_port(port: u16)
    ensures
        login_url(port) == "https://local.dev"@ + "/auth/cli?port="@ + decimal(port as nat),
{
}

/// The target of a request is what stands between the method and the version, whatever follows the
/// first line.
pub proof fn targets_are_found(
    method: Seq<char>,
    target: Seq<char>,
    version: Seq<char>,
    rest: Seq<char>,
)
    requires
        method.len() > 0,
        target.len() > 0,
        forall|i: int| 0 <= i < method.len() ==> !is_space(#[trigger] method[i]),
        forall|i: int| 0 <= i < target.len() ==> !is_space(#[trigger] target[i]),
        !version.contains('\n'),
    ensures
        target_of(method + seq![' '] + target + seq![' '] + version + seq!['\n'] + rest) == Some(
            target,
        ),
        target_of(method + seq!['\n'] + rest) is None,
{
    let line = method + seq![' '] + target + seq![' '] + version;
    let text = line + seq!['\n'] + rest;
    assert(method + seq![' '] + target + seq![' '] + version + seq!['\n'] + rest =~= text);
    assert forall|i: int| 0 <= i < line.len() implies #[trigger] line[i] != '\n' by {
        let at = method.len() as int;
        if i < at {
            assert(line[i] == method[i]);
        } else if at < i && i < at + 1 + target.len() {
            assert(line[i] == target[i - at - 1]);
        } else if i > at + 1 + target.len() {
            assert(line[i] == version[i - at - target.len() - 2]);
        }
    }
    lemma_first_line(line, rest);
    spaces_part_words(method, ' ', target);
    spaces_part_words(target, ' ', version);
    spaces_part_words(method + seq![' '] + target, ' ', version);
    assert(words(line) =~= seq![method] + seq![target] + words(version));
    lemma_first_line(method, rest);
    assert(words(method) == seq![method]);
}

proof fn lemma_first_line(line: Seq<char>, rest: Seq<char>)
    requires
        forall|i: int| 0 <= i < line.len() ==> #[trigger] line[i] != '\n',
    ensures
        before_char(line + seq!['\n'] + rest, '\n') == line,
{
    let text = line + seq!['\n'] + rest;
    before_stops_at_the_first(text, '\n');
    let b = before_char(text, '\n');
    assert(text[line.len() as int] == '\n');
    if b.len() > line.len() {
        assert(b[line.len() as int] == '\n');
    }
    if b.len() < line.len() {
        assert(text[b.len() as int] == line[b.len() as int]);
    }
    assert(b =~= line);
}

/// Of several values of a parameter the last one counts, and one that is not there has none.
pub proof fn last_values_count(
    pairs: Seq<(Seq<char>, Seq<char>)>,
    name: Seq<char>,
    i: int,
)
    ensures
        0 <= i < pairs.len() && pairs[i].0 == name && (forall|k: int|
            i < k < pairs.len() ==> (#[trigger] pairs[k]).0 != name) ==> param_of(pairs, name)
            == Some(pairs[i].1),
        (forall|k: int| 0 <= k < pairs.len() ==> (#[trigger] pairs[k]).0 != name) ==> param_of(
            pairs,
            name,
        ) is None,
    decreases pairs.len(),
{
    if pairs.len() > 0 {
        let init = pairs.drop_last();
        last_values_count(init, name, i);
        assert forall|k: int| 0 <= k < init.len() implies #[trigger] init[k] == pairs[k] by {}
        assert(pairs[pairs.len() - 1] == pairs.last());
    }
}

/// A callback brings the token, the email, the name and the user id of its parameters, each under
/// its own name; all but the token may be missing.
pub proof fn callbacks_bring_their_parameters(pairs: Seq<(Seq<char>, Seq<char>)>)
    ensures
        param_of(pairs, "token"@) is None ==> callback_of_pairs(pairs) is Err
            && callback_of_pairs(pairs)->Err_0 == "Missing token in callback"@,
        param_of(pairs, "token"@) is Some ==> callback_of_pairs(pairs) is Ok,
        callback_of_pairs(pairs) matches Ok(d) ==> Some(d.token) == param_of(pairs, "token"@) && (
        param_of(pairs, "email"@) matches Some(t) ==> d.email == t) && (param_of(pairs, "email"@)
            is None ==> d.email.len() == 0) && (param_of(pairs, "name"@) matches Some(t) ==> d.name
            == t) && (param_of(pairs, "name"@) is None ==> d.name.len() == 0) && (param_of(
            pairs,
            "user_id"@,
        ) matches Some(t) ==> d.user_id == t) && (param_of(pairs, "user_id"@) is None
            ==> d.user_id.len() == 0),
{
}

/// A callback is what its target says, read as a place on this machine.
pub proof fn callbacks_are_read(request: Seq<char>)
    ensures
        target_of(request) is None ==> callback_of(request) is Err && callback_of(request)->Err_0
            == "Invalid HTTP request"@,
        target_of(request) matches Some(t) ==> (match url_of("http://localhost"@ + t) {
            Ok(u) => callback_of(request) == callback_of_pairs(u.2),
            Err(e) => callback_of(request) is Err && callback_of(request)->Err_0
                == "Failed to parse callback URL: "@ + e,
        }),
{
}

/// A user is greeted by their email, if it is known.
pub proof fn users_are_greeted(email: Seq<char>)
    ensures
        email.len() > 0 ==> greeted(email) == email,
        email.len() == 0 ==> greeted(email) == "authenticated user"@,
{
}

} // verus!
