//! What a running tunnel shows in the terminal: lines of styled text.

use crate::text::{decimal, decimal_string};
use vstd::prelude::*;

verus! {

/// The color of a piece of text.
#[derive(Debug, Clone, Copy, PartialEq, Eq, Structural)]
pub enum Color {
    Plain,
    Green,
    Yellow,
    Red,
    White,
}

/// The look of a piece of text.
#[derive(Debug, Clone, Copy, PartialEq, Eq, Structural)]
pub struct Style {
    pub color: Color,
    pub bold: bool,
    pub dimmed: bool,
}

/// A piece of text of one look.
#[derive(Debug)]
pub struct Span {
    pub text: String,
    pub style: Style,
}

/// Text as it comes.
pub open spec fn plain() -> Style {
    Style { color: Color::Plain, bold: false, dimmed: false }
}

/// Text in a color.
pub open spec fn colored(color: Color) -> Style {
    Style { color, bold: false, dimmed: false }
}

/// Bold text in a color.
pub open spec fn bold(color: Color) -> Style {
    Style { color, bold: true, dimmed: false }
}

/// Dimmed text.
pub open spec fn dimmed() -> Style {
    Style { color: Color::Plain, bold: false, dimmed: true }
}

/// A line as plain values.
pub open spec fn line_of(spans: Seq<Span>) -> Seq<(Seq<char>, Style)> {
    spans.map_values(|s: Span| (s.text@, s.style))
}

/// Lines as plain values.
pub open spec fn lines_of(lines: Seq<Vec<Span>>) -> Seq<Seq<(Seq<char>, Style)>> {
    lines.map_values(|l: Vec<Span>| line_of(l@))
}

fn span(text: &str, style: Style) -> (r: Span)
    ensures
        (r.text@, r.style) == (text@, style),
{
    Span { text: text.to_owned(), style }
}

fn plain_span(text: &str) -> (r: Span)
    ensures
        (r.text@, r.style) == (text@, plain()),
{
    span(text, Style { color: Color::Plain, bold: false, dimmed: false })
}

fn color_span(text: &str, color: Color) -> (r: Span)
    ensures
        (r.text@, r.style) == (text@, colored(color)),
{
    span(text, Style { color, bold: false, dimmed: false })
}

fn bold_span(text: &str, color: Color) -> (r: Span)
    ensures
        (r.text@, r.style) == (text@, bold(color)),
{
    span(text, Style { color, bold: true, dimmed: false })
}

fn dimmed_span(text: &str) -> (r: Span)
    ensures
        (r.text@, r.style) == (text@, dimmed()),
{
    span(text, Style { color: Color::Plain, bold: false, dimmed: true })
}

/// The public address of a tunnel.
pub open spec fn public_url(subdomain: Seq<char>, relay_host: Seq<char>) -> Seq<char> {
    "https://"@ + subdomain + "."@ + relay_host
}

/// The tunnel-active banner.
pub open spec fn active_banner(subdomain: Seq<char>, port: u16, relay_host: Seq<char>) -> Seq<
    Seq<(Seq<char>, Style)>,
> {
    seq![
        seq![],
        seq![
            ("  "@, plain()),
            ("✔"@, bold(Color::Green)),
            (" "@, plain()),
            ("Tunnel active"@, bold(Color::Green)),
        ],
        seq![],
        seq![
            ("  "@, plain()),
            ("Public URL:"@, bold(Color::White)),
            ("   "@ + public_url(subdomain, relay_host), plain()),
        ],
        seq![
            ("  "@, plain()),
            ("Forwarding:"@, bold(Color::White)),
            (
                "  "@ + public_url(subdomain, relay_host) + " → http://localhost:"@ + decimal(
                    port as nat,
                ),
                plain(),
            ),
        ],
        seq![],
        seq![
            ("  Press "@, plain()),
            ("Ctrl+C"@, bold(Color::Yellow)),
            (" to stop"@, plain()),
        ],
        seq![],
    ]
}

fn public_address(prefix: &str, subdomain: &str, relay_host: &str) -> (r: String)
    ensures
        r@ == prefix@ + public_url(subdomain@, relay_host@),
{
    let mut out = prefix.to_owned();
    let mut url = "https://".to_owned();
    url.append(subdomain);
    url.append(".");
    url.append(relay_host);
    out.append(url.as_str());
    out
}


fn line2(a: Span, b: Span) -> (r: Vec<Span>)
    ensures
        line_of(r@) == seq![(a.text@, a.style), (b.text@, b.style)],
{
    let mut line: Vec<Span> = Vec::new();
    line.push(a);
    line.push(b);
    assert(line_of(line@) =~= seq![(a.text@, a.style), (b.text@, b.style)]);
    line
}

fn line3(a: Span, b: Span, c: Span) -> (r: Vec<Span>)
    ensures
        line_of(r@) == seq![(a.text@, a.style), (b.text@, b.style), (c.text@, c.style)],
{
    let mut line: Vec<Span> = Vec::new();
    line.push(a);
    line.push(b);
    line.push(c);
    assert(line_of(line@) =~= seq![(a.text@, a.style), (b.text@, b.style), (c.text@, c.style)]);
    line
}

fn line4(a: Span, b: Span, c: Span, d: Span) -> (r: Vec<Span>)
    ensures
        line_of(r@) == seq![
            (a.text@, a.style),
            (b.text@, b.style),
            (c.text@, c.style),
            (d.text@, d.style),
        ],
{
    let mut line: Vec<Span> = Vec::new();
    line.push(a);
    line.push(b);
    line.push(c);
    line.push(d);
    assert(line_of(line@) =~= seq![
        (a.text@, a.style),
        (b.text@, b.style),
        (c.text@, c.style),
        (d.text@, d.style),
    ]);
    line
}

fn blank() -> (r: Vec<Span>)
    ensures
        line_of(r@) == Seq::<(Seq<char>, Style)>::empty(),
{
    let line: Vec<Span> = Vec::new();
    assert(line_of(line@) =~= Seq::<(Seq<char>, Style)>::empty());
    line
}

/// The tunnel-active banner after successful authentication.
///
/// `relay_host` should be the hostname portion of the relay URL (e.g. "local.dev").
pub fn tunnel_active(subdomain: &str, local_port: u16, relay_host: &str) -> (r: Vec<Vec<Span>>)
    ensures
        lines_of(r@) == active_banner(subdomain@, local_port, relay_host@),
{
    let public = public_address("   ", subdomain, relay_host);
    let mut forwarding = public_address("  ", subdomain, relay_host);
    forwarding.append(" → http://localhost:");
    let port = decimal_string(local_port as u64);
    forwarding.append(port.as_str());

    let mut lines: Vec<Vec<Span>> = Vec::new();
    lines.push(blank());
    lines.push(
        line4(
            plain_span("  "),
            bold_span("✔", Color::Green),
            plain_span(" "),
            bold_span("Tunnel active", Color::Green),
        ),
    );
    lines.push(blank());
    lines.push(
        line3(
            plain_span("  "),
            bold_span("Public URL:", Color::White),
            plain_span(public.as_str()),
        ),
    );
    lines.push(
        line3(
            plain_span("  "),
            bold_span("Forwarding:", Color::White),
            plain_span(forwarding.as_str()),
        ),
    );
    lines.push(blank());
    lines.push(
        line3(plain_span("  Press "), bold_span("Ctrl+C", Color::Yellow), plain_span(" to stop")),
    );
    lines.push(blank());
    assert(lines_of(lines@) =~= active_banner(subdomain@, local_port, relay_host@));
    lines
}

/// The look of a status code: green for 2xx, yellow for 3xx, red for 4xx, bold red for 5xx.
pub open spec fn status_style(status: u16) -> Style {
    if 200 <= status <= 299 {
        colored(Color::Green)
    } else if 300 <= status <= 399 {
        colored(Color::Yellow)
    } else if 400 <= status <= 499 {
        colored(Color::Red)
    } else if 500 <= status <= 599 {
        bold(Color::Red)
    } else {
        colored(Color::White)
    }
}

/// The log line of an individual HTTP request that was proxied through the tunnel.
///
/// Colors the status code: green for 2xx, yellow for 3xx, red for 4xx/5xx.
pub fn request_log(method: &str, path: &str, status: u16, duration_ms: u64) -> (r: Vec<Span>)
    ensures
        line_of(r@) == seq![
            ("  "@, plain()),
            (method@, bold(Color::White)),
            (" "@, plain()),
            (path@, colored(Color::White)),
            (" → "@, plain()),
            (decimal(status as nat), status_style(status)),
            (" ("@ + decimal(duration_ms as nat) + "ms)"@, plain()),
        ],
{
    let code = decimal_string(status as u64);
    let code = if 200 <= status && status <= 299 {
        color_span(code.as_str(), Color::Green)
    } else if 300 <= status && status <= 399 {
        color_span(code.as_str(), Color::Yellow)
    } else if 400 <= status && status <= 499 {
        color_span(code.as_str(), Color::Red)
    } else if 500 <= status && status <= 599 {
        bold_span(code.as_str(), Color::Red)
    } else {
        color_span(code.as_str(), Color::White)
    };
    let millis = decimal_string(duration_ms);
    let mut duration = " (".to_owned();
    duration.append(millis.as_str());
    duration.append("ms)");

    let mut line: Vec<Span> = Vec::new();
    line.push(plain_span("  "));
    line.push(bold_span(method, Color::White));
    line.push(plain_span(" "));
    line.push(color_span(path, Color::White));
    line.push(plain_span(" → "));
    line.push(code);
    line.push(plain_span(duration.as_str()));
    assert(line_of(line@) =~= seq![
        ("  "@, plain()),
        (method@, bold(Color::White)),
        (" "@, plain()),
        (path@, colored(Color::White)),
        (" → "@, plain()),
        (decimal(status as nat), status_style(status)),
        (" ("@ + decimal(duration_ms as nat) + "ms)"@, plain()),
    ]);
    line
}

/// Whether the user is told about a reconnection attempt. The first two are routine.
pub open spec fn is_narrated(attempt: nat) -> bool {
    attempt >= 3
}

/// The line for a reconnection attempt. Attempts 1-2 are silent: NAT timeouts and Wi-Fi flickers
/// are routine and the auto-recovery usually completes in a second.
pub fn reconnecting(attempt: u32, max: u32) -> (r: Option<Vec<Span>>)
    ensures
        r is Some == is_narrated(attempt as nat),
        r matches Some(line) ==> line_of(line@) == seq![
            ("  "@, plain()),
            ("⟳"@, bold(Color::Yellow)),
            (
                " Reconnecting... (attempt "@ + decimal(attempt as nat) + "/"@ + decimal(
                    max as nat,
                ) + ")"@,
                plain(),
            ),
        ],
{
    if attempt < 3 {
        return None;
    }
    let nth = decimal_string(attempt as u64);
    let last = decimal_string(max as u64);
    let mut text = " Reconnecting... (attempt ".to_owned();
    text.append(nth.as_str());
    text.append("/");
    text.append(last.as_str());
    text.append(")");
    Some(line3(plain_span("  "), bold_span("⟳", Color::Yellow), plain_span(text.as_str())))
}

/// One-line "back online" notice for routine reconnects, in place of the full banner. It says
/// "refreshed" because nothing went wrong.
pub fn reconnected_quietly() -> (r: Vec<Span>)
    ensures
        line_of(r@) == seq![("  "@, plain()), ("↻ tunnel refreshed"@, dimmed())],
{
    line2(plain_span("  "), dimmed_span("↻ tunnel refreshed"))
}

/// The line for an error.
pub fn error_line(msg: &str) -> (r: Vec<Span>)
    ensures
        line_of(r@) == seq![
            ("  "@, plain()),
            ("✗ Error:"@, bold(Color::Red)),
            (" "@ + msg@, plain()),
        ],
{
    let mut text = " ".to_owned();
    text.append(msg);
    line3(plain_span("  "), bold_span("✗ Error:", Color::Red), plain_span(text.as_str()))
}

/// The lines for a disconnection.
pub fn disconnected() -> (r: Vec<Vec<Span>>)
    ensures
        lines_of(r@) == seq![
            seq![],
            seq![("  "@, plain()), ("Tunnel disconnected."@, dimmed())],
        ],
{
    let mut lines: Vec<Vec<Span>> = Vec::new();
    lines.push(blank());
    lines.push(line2(plain_span("  "), dimmed_span("Tunnel disconnected.")));
    assert(lines_of(lines@) =~= seq![
        seq![],
        seq![("  "@, plain()), ("Tunnel disconnected."@, dimmed())],
    ]);
    lines
}

/// The message for a tunnel that is given up.
pub fn gave_up(attempts: u32) -> (r: String)
    ensures
        r@ == "Gave up after "@ + decimal(attempts as nat) + " reconnection attempts"@,
{
    let n = decimal_string(attempts as u64);
    let mut out = "Gave up after ".to_owned();
    out.append(n.as_str());
    out.append(" reconnection attempts");
    out
}

} // verus!
