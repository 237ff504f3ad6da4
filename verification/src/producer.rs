//! A model of the metrics producer's scrape method: a registry of
//! named instruments that, on every scrape, counts the scrape itself
//! and serializes one consistent snapshot of all instruments into the
//! line-oriented exposition format.

use vstd::prelude::*;
use crate::gateway::MetricsResponse;
use crate::numerals::{
    dec_text, dec_val, fmt_u64, is_dec_digit, lemma_dec_text_digits, lemma_dec_text_val,
};

verus! {

broadcast use vstd::string::group_string_axioms;

/// Whether a character may start a metric name: an ASCII letter, an
/// underscore or a colon.
pub open spec fn is_name_start(c: char) -> bool {
    (97 <= c as u32 <= 122) || (65 <= c as u32 <= 90) || c as u32 == 95 || c as u32 == 58
}

/// Whether a character may continue a metric name: a start character
/// or an ASCII digit.
pub open spec fn is_name_char(c: char) -> bool {
    is_name_start(c) || (48 <= c as u32 <= 57)
}

/// Whether a string is a well-formed metric name.
pub open spec fn is_metric_name(s: Seq<char>) -> bool {
    &&& s.len() >= 1
    &&& is_name_start(s[0])
    &&& forall|i: int| 1 <= i < s.len() ==> is_name_char(#[trigger] s[i])
}

/// Whether a character may start a metric name.
fn name_start_char(c: char) -> (r: bool)
    ensures
        r == is_name_start(c),
{
    let u = c as u32;
    (97 <= u && u <= 122) || (65 <= u && u <= 90) || u == 95 || u == 58
}

/// Whether a character may continue a metric name.
fn name_char(c: char) -> (r: bool)
    ensures
        r == is_name_char(c),
{
    let u = c as u32;
    name_start_char(c) || (48 <= u && u <= 57)
}

/// Decides whether a string is a well-formed metric name.
pub fn check_metric_name(s: &str) -> (ok: bool)
    ensures
        ok == is_metric_name(s@),
{
    let n = s.unicode_len();
    if n == 0 {
        return false;
    }
    if !name_start_char(s.get_char(0)) {
        return false;
    }
    let mut i: usize = 1;
    while i < n
        invariant
            n == s@.len(),
            1 <= i <= n,
            is_name_start(s@[0]),
            forall|j: int| 1 <= j < i ==> is_name_char(#[trigger] s@[j]),
        decreases n - i,
    {
        if !name_char(s.get_char(i)) {
            return false;
        }
        i = i + 1;
    }
    true
}

/// One registered instrument: a name and its current value.
#[derive(Debug, PartialEq, Eq)]
pub struct Instrument {
    pub name: String,
    pub value: u64,
}

/// A rejected registration.
#[derive(Clone, Copy, Debug, PartialEq, Eq, Structural)]
pub enum RegistryError {
    /// The instrument name is not a well-formed metric name.
    InvalidName,
}

/// One exposition line: the instrument's name, a space, its value, a
/// newline.
pub open spec fn line_text(name: Seq<char>, value: u64) -> Seq<char> {
    name + seq![' '] + dec_text(value as nat) + seq!['\n']
}

/// The exposition lines of a sequence of instruments, in registration
/// order.
pub open spec fn render_instruments(l: Seq<Instrument>) -> Seq<char>
    decreases l.len(),
{
    if l.len() == 0 {
        Seq::<char>::empty()
    } else {
        line_text(l[0].name@, l[0].value) + render_instruments(l.drop_first())
    }
}

/// The name of the instrument that counts scrapes.
pub open spec fn scrape_counter_name() -> Seq<char> {
    "scrape_requests_total"@
}

/// One full exposition payload: every registered instrument's line,
/// then the scrape counter's line.
pub open spec fn exposition_text(instruments: Seq<Instrument>, scrapes: u64) -> Seq<char> {
    render_instruments(instruments) + line_text(scrape_counter_name(), scrapes)
}

/// Rendering one more instrument appends exactly its line.
proof fn lemma_render_push(l: Seq<Instrument>, x: Instrument)
    ensures
        render_instruments(l.push(x)) == render_instruments(l) + line_text(x.name@, x.value),
    decreases l.len(),
{
    if l.len() == 0 {
        assert(l.push(x).drop_first() =~= Seq::<Instrument>::empty());
        assert(l.push(x)[0] == x);
        assert(render_instruments(Seq::<Instrument>::empty()) =~= Seq::<char>::empty());
        assert(render_instruments(l.push(x)) =~= line_text(x.name@, x.value));
        assert(render_instruments(l) + line_text(x.name@, x.value) =~= line_text(
            x.name@,
            x.value,
        ));
    } else {
        lemma_render_push(l.drop_first(), x);
        assert(l.push(x).drop_first() =~= l.drop_first().push(x));
        assert(l.push(x)[0] == l[0]);
        assert(render_instruments(l.push(x)) =~= render_instruments(l) + line_text(
            x.name@,
            x.value,
        ));
    }
}

/// The scrape count after one more scrape: one higher, held at the
/// numeric ceiling instead of wrapping.
pub open spec fn bump(c: u64) -> u64 {
    if c < u64::MAX {
        (c + 1) as u64
    } else {
        c
    }
}

/// The scrape count after a number of further scrapes.
pub open spec fn scrapes_after(c: u64, n: nat) -> u64
    decreases n,
{
    if n == 0 {
        c
    } else {
        bump(scrapes_after(c, (n - 1) as nat))
    }
}

/// The exposition line of one instrument.
pub open spec fn instrument_line(x: Instrument) -> Seq<char> {
    line_text(x.name@, x.value)
}

/// The lines of one payload: one per instrument in registration
/// order, then the scrape counter's line.
pub open spec fn lines_of(instruments: Seq<Instrument>, scrapes: u64) -> Seq<Seq<char>> {
    instruments.map_values(|x: Instrument| instrument_line(x)).push(
        line_text(scrape_counter_name(), scrapes),
    )
}

/// Rendering a sequence of instruments flattens their lines.
proof fn lemma_render_is_flatten(l: Seq<Instrument>)
    ensures
        render_instruments(l) == l.map_values(|x: Instrument| instrument_line(x)).flatten(),
    decreases l.len(),
{
    let m = l.map_values(|x: Instrument| instrument_line(x));
    if l.len() == 0 {
        assert(m.len() == 0);
        assert(render_instruments(l) =~= m.flatten());
    } else {
        lemma_render_is_flatten(l.drop_first());
        assert(m.drop_first() =~= l.drop_first().map_values(
            |x: Instrument| instrument_line(x),
        ));
        assert(m.first() == instrument_line(l[0]));
        assert(render_instruments(l) =~= m.flatten());
    }
}

/// The payload is line-structured: the exposition text is exactly the
/// flattening of its lines — each the instrument's name, one space,
/// the decimal value text and a terminating newline — with the scrape
/// counter's line last.
pub proof fn lemma_exposition_is_lines(instruments: Seq<Instrument>, scrapes: u64)
    ensures
        exposition_text(instruments, scrapes) == lines_of(instruments, scrapes).flatten(),
{
    let m = instruments.map_values(|x: Instrument| instrument_line(x));
    lemma_render_is_flatten(instruments);
    m.lemma_flatten_push(line_text(scrape_counter_name(), scrapes));
    assert(exposition_text(instruments, scrapes) =~= lines_of(instruments, scrapes).flatten());
}

/// The scrape count is readable from the payload: the exposition text
/// ends with the scrape counter's line, whose value text is a
/// non-empty digit string that denotes the count itself.
pub proof fn lemma_reported_count(instruments: Seq<Instrument>, scrapes: u64)
    ensures
        exposition_text(instruments, scrapes) == render_instruments(instruments) + (
        scrape_counter_name() + seq![' '] + dec_text(scrapes as nat) + seq!['\n']),
        dec_val(dec_text(scrapes as nat)) == scrapes,
        dec_text(scrapes as nat).len() >= 1,
        forall|i: int|
            0 <= i < dec_text(scrapes as nat).len() ==> is_dec_digit(
                #[trigger] dec_text(scrapes as nat)[i],
            ),
{
    lemma_dec_text_val(scrapes as nat);
    lemma_dec_text_digits(scrapes as nat);
}

/// Across any sequence of scrapes, the scrape counter is monotonically
/// non-decreasing: a later scrape never reports a smaller count than
/// an earlier one.
pub proof fn lemma_scrape_count_monotonic(c: u64, i: nat, j: nat)
    requires
        i <= j,
    ensures
        scrapes_after(c, i) <= scrapes_after(c, j),
    decreases j,
{
    if j > i {
        lemma_scrape_count_monotonic(c, i, (j - 1) as nat);
    }
}

/// The producer's registry: the instruments registered so far and the
/// count of scrapes served. Built once at startup and passed by
/// reference wherever instruments are registered or serialized; there
/// is no hidden global state.
pub struct Registry {
    /// The registered instruments, in registration order.
    pub instruments: Vec<Instrument>,
    /// How many scrapes this registry has served.
    pub scrapes: u64,
}

impl Registry {
    /// Every registered instrument carries a well-formed metric name.
    pub open spec fn wf(self) -> bool {
        forall|i: int|
            0 <= i < self.instruments@.len() ==> is_metric_name(
                (#[trigger] self.instruments@[i]).name@,
            )
    }

    /// An empty registry that has served no scrape.
    pub fn new() -> (r: Registry)
        ensures
            r.wf(),
            r.instruments@.len() == 0,
            r.scrapes == 0,
    {
        Registry { instruments: Vec::new(), scrapes: 0 }
    }

    /// Registers one instrument. A well-formed name is appended to the
    /// registry; any other name is rejected and the registry is left
    /// unchanged.
    pub fn register(&mut self, name: String, value: u64) -> (r: Result<(), RegistryError>)
        requires
            old(self).wf(),
        ensures
            final(self).wf(),
            final(self).scrapes == old(self).scrapes,
            r is Ok <==> is_metric_name(name@),
            is_metric_name(name@) ==> final(self).instruments@ == old(self).instruments@.push(
                (Instrument { name, value }),
            ),
            !is_metric_name(name@) ==> final(self).instruments@ == old(self).instruments@,
    {
        if check_metric_name(name.as_str()) {
            let ghost before = self.instruments@;
            self.instruments.push(Instrument { name, value });
            proof {
                assert forall|i: int| 0 <= i < self.instruments@.len() implies is_metric_name(
                    (#[trigger] self.instruments@[i]).name@,
                ) by {
                    if i < before.len() {
                        assert(self.instruments@[i] == before[i]);
                    }
                }
            }
            Ok(())
        } else {
            Err(RegistryError::InvalidName)
        }
    }

    /// Serializes one consistent snapshot of the registry: every
    /// instrument's line in registration order, then the scrape
    /// counter's line.
    fn render_snapshot(&self) -> (s: String)
        ensures
            s@ == exposition_text(self.instruments@, self.scrapes),
    {
        proof {
            reveal_strlit(" ");
            reveal_strlit("\n");
            assert(" "@ =~= seq![' ']);
            assert("\n"@ =~= seq!['\n']);
        }
        let mut s = String::new();
        let n = self.instruments.len();
        let mut i: usize = 0;
        while i < n
            invariant
                n == self.instruments@.len(),
                i <= n,
                s@ == render_instruments(self.instruments@.take(i as int)),
                " "@ =~= seq![' '],
                "\n"@ =~= seq!['\n'],
            decreases n - i,
        {
            let inst = &self.instruments[i];
            s.append(inst.name.as_str());
            s.append(" ");
            let value_text = fmt_u64(inst.value);
            s.append(value_text.as_str());
            s.append("\n");
            proof {
                lemma_render_push(self.instruments@.take(i as int), self.instruments@[i as int]);
                assert(self.instruments@.take(i as int).push(self.instruments@[i as int])
                    =~= self.instruments@.take(i as int + 1));
                assert(s@ =~= render_instruments(self.instruments@.take(i as int + 1)));
            }
            i = i + 1;
        }
        proof {
            assert(self.instruments@.take(n as int) =~= self.instruments@);
        }
        s.append("scrape_requests_total");
        s.append(" ");
        let count_text = fmt_u64(self.scrapes);
        s.append(count_text.as_str());
        s.append("\n");
        proof {
            assert(s@ =~= exposition_text(self.instruments@, self.scrapes));
        }
        s
    }

    /// Serves one scrape: counts it, then serializes a snapshot that
    /// already shows the new count. The increment saturates at the
    /// numeric ceiling, so the reported count never decreases.
    pub fn serve_scrape(&mut self) -> (r: MetricsResponse)
        requires
            old(self).wf(),
        ensures
            final(self).wf(),
            final(self).instruments@ == old(self).instruments@,
            final(self).scrapes == bump(old(self).scrapes),
            r.text@ == exposition_text(final(self).instruments@, final(self).scrapes),
    {
        if self.scrapes < u64::MAX {
            self.scrapes = self.scrapes + 1;
        }
        let text = self.render_snapshot();
        MetricsResponse { text }
    }
}

} // verus!
