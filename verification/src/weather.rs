//! The weather domain model: a typed error taxonomy, the `Weather` record
//! with its canonical human-readable rendering, and the `Provider`
//! capability.

use vstd::prelude::*;

use crate::temperature::CANONICAL_LIMIT;
use crate::temperature::Temperature;
use crate::temperature::tdiv;

verus! {

/// Why a weather lookup failed. Each kind is terminal for the call that
/// produced it; nothing here retries.
#[derive(Debug, Clone, PartialEq, Eq)]
pub enum WeatherError {
    /// The request could not be sent, or the connection failed or timed out.
    Transport(String),
    /// The server answered with a non-success HTTP status; carries the code.
    HttpStatus(u16),
    /// The vendor's body reported an application-level failure; carries the
    /// vendor's message.
    Vendor(String),
    /// The response body did not match the expected success shape; carries
    /// the raw body for diagnosis.
    Schema(String),
}

/// The weather conditions for a given location.
#[derive(Debug, Clone, PartialEq, Eq)]
pub struct Weather {
    /// A display-ready location: a place name and a country joined by `", "`.
    pub location: String,
    /// The current temperature.
    pub temperature: Temperature,
    /// A short textual summary of the conditions.
    pub summary: String,
}

/// The capability of answering "what is the weather at location X": anything
/// that can produce a `Weather` for a free-form location string, or fail
/// with a `WeatherError`. Alternate vendors implement this.
pub trait Provider {
    /// Gets the current weather conditions at `location` from the provider.
    fn get_weather(&self, location: &str) -> Result<Weather, WeatherError>;
}

/// The decimal digit characters, in order.
pub open spec fn digit_char(d: nat) -> char {
    seq!['0', '1', '2', '3', '4', '5', '6', '7', '8', '9'][d as int]
}

/// The decimal rendering of a natural number, most significant digit first.
pub open spec fn dec_digits(n: nat) -> Seq<char>
    decreases n,
{
    if n < 10 {
        seq![digit_char(n)]
    } else {
        dec_digits(n / 10).push(digit_char(n % 10))
    }
}

/// The rendering of a fixed-point number given in tenths: a minus sign if
/// negative, the whole degrees, and the tenths digit only when it is not
/// zero.
pub open spec fn tenths_chars(t: int) -> Seq<char> {
    let sign: Seq<char> = if t < 0 { seq!['-'] } else { Seq::empty() };
    let m = if t < 0 { -t } else { t };
    let frac: Seq<char> = if m % 10 == 0 { Seq::empty() } else { seq!['.', digit_char((m % 10) as nat)] };
    sign + dec_digits((m / 10) as nat) + frac
}

fn digit_str(d: u64) -> (s: &'static str)
    requires
        d < 10,
    ensures
        s@ == seq![digit_char(d as nat)],
{
    proof {
        reveal_strlit("0");
        reveal_strlit("1");
        reveal_strlit("2");
        reveal_strlit("3");
        reveal_strlit("4");
        reveal_strlit("5");
        reveal_strlit("6");
        reveal_strlit("7");
        reveal_strlit("8");
        reveal_strlit("9");
    }
    if d == 0 {
        "0"
    } else if d == 1 {
        "1"
    } else if d == 2 {
        "2"
    } else if d == 3 {
        "3"
    } else if d == 4 {
        "4"
    } else if d == 5 {
        "5"
    } else if d == 6 {
        "6"
    } else if d == 7 {
        "7"
    } else if d == 8 {
        "8"
    } else {
        "9"
    }
}

fn push_dec(out: &mut String, n: u64)
    ensures
        final(out)@ == old(out)@ + dec_digits(n as nat),
    decreases n,
{
    if n >= 10 {
        push_dec(out, n / 10);
    }
    let d = digit_str(n % 10);
    out.append(d);
    proof {
        assert(out@ =~= old(out)@ + dec_digits(n as nat));
    }
}

/// Appends the rendering of `t` tenths of a degree to `out`.
fn push_tenths(out: &mut String, t: i64)
    requires
        -CANONICAL_LIMIT <= t <= CANONICAL_LIMIT,
    ensures
        final(out)@ == old(out)@ + tenths_chars(t as int),
{
    proof {
        reveal_strlit("-");
        reveal_strlit(".");
    }
    let m: u64 = if t < 0 {
        out.append("-");
        (-t) as u64
    } else {
        t as u64
    };
    push_dec(out, m / 10);
    let frac = m % 10;
    if frac != 0 {
        out.append(".");
        let d = digit_str(frac);
        out.append(d);
    }
    proof {
        assert(out@ =~= old(out)@ + tenths_chars(t as int));
    }
}

impl Weather {
    /// The canonical rendering: the summary, the temperature in degrees
    /// Celsius, and the location in parentheses.
    pub open spec fn rendered(self) -> Seq<char> {
        self.summary@ + " "@ + tenths_chars(tdiv(self.temperature.canon(), 9)) + "\u{ba}C ("@
            + self.location@ + ")"@
    }

    /// Renders this weather as `"<summary> <celsius>ºC (<location>)"`.
    pub fn render(&self) -> (r: String)
        ensures
            r@ == self.rendered(),
    {
        proof {
            reveal_strlit(" ");
            reveal_strlit("\u{ba}C (");
            reveal_strlit(")");
        }
        let mut out = String::from_str(self.summary.as_str());
        out.append(" ");
        let c = self.as_celsius_tenths();
        push_tenths(&mut out, c);
        out.append("\u{ba}C (");
        out.append(self.location.as_str());
        out.append(")");
        proof {
            assert(out@ =~= self.rendered());
        }
        out
    }

    /// The temperature in Celsius tenths, bounded so it can be rendered.
    fn as_celsius_tenths(&self) -> (c: i64)
        ensures
            c as int == tdiv(self.temperature.canon(), 9),
            -CANONICAL_LIMIT <= c <= CANONICAL_LIMIT,
    {
        self.temperature.as_celsius()
    }
}

} // verus!
