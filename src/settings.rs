//! The choices that select and reach the metrics sink.
use vstd::prelude::*;

use crate::text::same_text;

verus! {

/// Which metrics sink points are pushed to.
#[derive(Clone, Copy, Debug, PartialEq, Eq, Structural)]
pub enum PushMethod {
    Influx,
    Telegraf,
}

/// The name of a push method.
pub open spec fn push_method_name(m: PushMethod) -> Seq<char> {
    match m {
        PushMethod::Influx => "influx"@,
        PushMethod::Telegraf => "telegraf"@,
    }
}

impl PushMethod {
    /// The method's name.
    pub fn name(&self) -> (r: &'static str)
        ensures
            r@ == push_method_name(*self),
    {
        match self {
            PushMethod::Influx => "influx",
            PushMethod::Telegraf => "telegraf",
        }
    }

    /// The method with name `s`; `Err` where no method has it.
    pub fn from_str(s: &str) -> (r: Result<PushMethod, ()>)
        ensures
            r == push_method_named(s@),
    {
        if same_text(s, "influx") {
            Ok(PushMethod::Influx)
        } else if same_text(s, "telegraf") {
            Ok(PushMethod::Telegraf)
        } else {
            Err(())
        }
    }
}

/// The push method that a name selects, if any.
pub open spec fn push_method_named(s: Seq<char>) -> Result<PushMethod, ()> {
    if s == push_method_name(PushMethod::Influx) {
        Ok(PushMethod::Influx)
    } else if s == push_method_name(PushMethod::Telegraf) {
        Ok(PushMethod::Telegraf)
    } else {
        Err(())
    }
}

/// A push method's name selects that method.
pub proof fn lemma_push_method_name_round_trip(m: PushMethod)
    ensures
        push_method_named(push_method_name(m)) == Ok::<PushMethod, ()>(m),
{
    reveal_strlit("influx");
    reveal_strlit("telegraf");
    assert("influx"@.len() == 6);
    assert("telegraf"@.len() == 8);
}

/// How the telegraf socket is reached.
#[derive(Clone, Copy, Debug, PartialEq, Eq, Structural)]
pub enum TelTransport {
    Udp,
    Tcp,
}

/// The URL scheme of a transport.
pub open spec fn transport_name(t: TelTransport) -> Seq<char> {
    match t {
        TelTransport::Udp => "udp"@,
        TelTransport::Tcp => "tcp"@,
    }
}

impl TelTransport {
    /// The transport's URL scheme.
    pub fn name(&self) -> (r: &'static str)
        ensures
            r@ == transport_name(*self),
    {
        match self {
            TelTransport::Udp => "udp",
            TelTransport::Tcp => "tcp",
        }
    }

    /// The transport with URL scheme `s`; `Err` where no transport has it.
    pub fn from_str(s: &str) -> (r: Result<TelTransport, ()>)
        ensures
            r == (if s@ == transport_name(TelTransport::Udp) {
                Ok(TelTransport::Udp)
            } else if s@ == transport_name(TelTransport::Tcp) {
                Ok(TelTransport::Tcp)
            } else {
                Err(())
            }),
    {
        if same_text(s, "udp") {
            Ok(TelTransport::Udp)
        } else if same_text(s, "tcp") {
            Ok(TelTransport::Tcp)
        } else {
            Err(())
        }
    }
}

/// The decimal digit character of `d`, for `d` below ten.
pub open spec fn digit_char(d: nat) -> char {
    if d == 0 { '0' }
    else if d == 1 { '1' }
    else if d == 2 { '2' }
    else if d == 3 { '3' }
    else if d == 4 { '4' }
    else if d == 5 { '5' }
    else if d == 6 { '6' }
    else if d == 7 { '7' }
    else if d == 8 { '8' }
    else { '9' }
}

/// The decimal numeral of `n`, without leading zeros.
pub open spec fn decimal(n: nat) -> Seq<char>
    decreases n,
{
    if n < 10 {
        seq![digit_char(n)]
    } else {
        decimal(n / 10).push(digit_char(n % 10))
    }
}

/// The string of one decimal digit.
fn digit_text(d: u16) -> (r: &'static str)
    requires
        d < 10,
    ensures
        r@ == seq![digit_char(d as nat)],
{
    proof {
        reveal_strlit("0");
        reveal_strlit("1");
        reveal_strlit("2");
        reveal_strlit("3");
        reveal_strlit("4");
        reveal_strlit("5");
        reveal_strlit("6");
        reveal_strlit("7");
        reveal_strlit("8");
        reveal_strlit("9");
    }
    let r = match d {
        0 => "0",
        1 => "1",
        2 => "2",
        3 => "3",
        4 => "4",
        5 => "5",
        6 => "6",
        7 => "7",
        8 => "8",
        _ => "9",
    };
    assert(r@ =~= seq![digit_char(d as nat)]);
    r
}

/// Appends the decimal numeral of `n` to `out`.
fn push_decimal(out: &mut String, n: u16)
    ensures
        final(out)@ == old(out)@ + decimal(n as nat),
    decreases n,
{
    if n >= 10 {
        push_decimal(out, n / 10);
    }
    out.append(digit_text(n % 10));
    assert(n >= 10 ==> decimal(n as nat) == decimal((n / 10) as nat).push(digit_char((n % 10) as nat)));
    assert(out@ =~= old(out)@ + decimal(n as nat));
}

/// The socket URL of a telegraf listener: `<transport>://<host>:<port>`.
pub fn telegraf_url(transport: TelTransport, host: &str, port: u16) -> (r: String)
    ensures
        r@ == transport_name(transport) + "://"@ + host@ + ":"@ + decimal(port as nat),
{
    let mut url = String::from_str(transport.name());
    url.append("://");
    url.append(host);
    url.append(":");
    push_decimal(&mut url, port);
    url
}

/// A required setting that was left empty.
#[derive(Clone, Copy, Debug, PartialEq, Eq, Structural)]
pub enum SettingsError {
    NoTelegrafHost,
    NoMqttHost,
    NoMqttTopic,
}

/// Checks that the telegraf host, the MQTT host and the MQTT topic are given,
/// in that order, and names the first that is empty.
pub fn check_settings(tel_host: &str, mqtt_host: &str, mqtt_topic: &str) -> (r: Result<(), SettingsError>)
    ensures
        r == (if tel_host@.len() == 0 {
            Err(SettingsError::NoTelegrafHost)
        } else if mqtt_host@.len() == 0 {
            Err(SettingsError::NoMqttHost)
        } else if mqtt_topic@.len() == 0 {
            Err(SettingsError::NoMqttTopic)
        } else {
            Ok(())
        }),
{
    if tel_host.unicode_len() == 0 {
        Err(SettingsError::NoTelegrafHost)
    } else if mqtt_host.unicode_len() == 0 {
        Err(SettingsError::NoMqttHost)
    } else if mqtt_topic.unicode_len() == 0 {
        Err(SettingsError::NoMqttTopic)
    } else {
        Ok(())
    }
}

} // verus!
