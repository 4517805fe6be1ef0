//! Leveled reports and their transform into notification payloads.
//!
//! A [`StatsLog`] is a presentation-ready view of one sample; an
//! [`AlertMessage`] is the wire-shaped notification derived from it, one to
//! one, for a downstream chat/alert consumer.

use vstd::prelude::*;
use crate::metrics::Sample;
use crate::numfmt::spec_fixed2;
use crate::numfmt::format_hundredths;

verus! {

/// The severity of a report: `Info` for the periodic stat report, `Warn`
/// for a threshold-breach alert.
#[derive(Clone, Copy, PartialEq, Eq, Structural, Debug)]
pub enum Level {
    Info,
    Warn,
}

/// The lower-case label of a level, as it appears in a report.
pub open spec fn spec_level_str(l: Level) -> Seq<char> {
    if l is Warn {
        "warn"@
    } else {
        "info"@
    }
}

/// A presentation-ready record of one sample at one severity level.
pub struct StatsLog {
    pub name: String,
    pub level: Level,
    pub cpu: String,
    pub mem: String,
    pub temp: String,
    pub time: String,
}

/// A notification payload, shaped for a downstream chat/alert consumer.
pub struct AlertMessage {
    pub text: String,
    pub attachments: Vec<Attachment>,
}

/// One attachment block of a notification payload.
pub struct Attachment {
    pub color: String,
    pub title: String,
    pub text: String,
    pub fields: Vec<Field>,
    pub footer: String,
}

/// One labeled field of an attachment.
pub struct Field {
    pub title: String,
    pub value: String,
    pub short: bool,
}

/// A percentage in hundredths, rendered with two decimals and a percent
/// sign.
pub open spec fn spec_percent_string(n: u64) -> Seq<char> {
    spec_fixed2(n as nat) + "%"@
}

/// A temperature in centidegrees, rendered with two decimals and the
/// degree-Celsius unit; `"n/a"` when the host reported no temperature
/// sensors.
pub open spec fn spec_temp_string(t: Option<u64>) -> Seq<char> {
    match t {
        Some(v) => spec_fixed2(v as nat) + "\u{b0}C"@,
        None => "n/a"@,
    }
}

/// The free-text summary of a `warn` notification.
pub open spec fn spec_alert_text(name: Seq<char>) -> Seq<char> {
    "Alert: "@ + name + " is experiencing high resource usage!"@
}

/// The free-text summary of an `info` notification.
pub open spec fn spec_update_text(name: Seq<char>) -> Seq<char> {
    "Update: "@ + name + " resource usage"@
}

/// The field carries exactly this title and value, marked for short
/// rendering.
pub open spec fn field_matches(f: Field, title: Seq<char>, value: Seq<char>) -> bool {
    &&& f.title@ == title
    &&& f.value@ == value
    &&& f.short == true
}

/// The attachment block that a report with these parts must produce:
/// color and headline fixed by the level, then the six labeled fields in
/// order, then the constant footer.
pub open spec fn attachment_matches(
    a: Attachment,
    name: Seq<char>,
    level: Level,
    cpu: Seq<char>,
    mem: Seq<char>,
    temp: Seq<char>,
    time: Seq<char>,
) -> bool {
    &&& a.color@ == if level is Warn { "#ff0000"@ } else { "#228B22"@ }
    &&& a.title@ == if level is Warn { "System Alert"@ } else { "System Update"@ }
    &&& a.text@ == if level is Warn {
        "The system is running low on resources."@
    } else {
        "The system is currently ok."@
    }
    &&& a.fields@.len() == 6
    &&& field_matches(a.fields@[0], "Name"@, name)
    &&& field_matches(a.fields@[1], "Status"@, spec_level_str(level))
    &&& field_matches(a.fields@[2], "CPU"@, cpu)
    &&& field_matches(a.fields@[3], "Memory"@, mem)
    &&& field_matches(a.fields@[4], "Temperature"@, temp)
    &&& field_matches(a.fields@[5], "Time"@, time)
    &&& a.footer@ == "StatBeacon"@
}

/// The notification payload that a report with these parts must produce:
/// a summary line chosen by the level and exactly one attachment.
pub open spec fn notification_matches(
    m: AlertMessage,
    name: Seq<char>,
    level: Level,
    cpu: Seq<char>,
    mem: Seq<char>,
    temp: Seq<char>,
    time: Seq<char>,
) -> bool {
    &&& m.text@ == if level is Warn { spec_alert_text(name) } else { spec_update_text(name) }
    &&& m.attachments@.len() == 1
    &&& attachment_matches(m.attachments@[0], name, level, cpu, mem, temp, time)
}

/// The notification that a given report must produce.
pub open spec fn is_notification_of(m: AlertMessage, log: StatsLog) -> bool {
    notification_matches(m, log.name@, log.level, log.cpu@, log.mem@, log.temp@, log.time@)
}

/// The lower-case label of a level.
pub fn level_str(l: Level) -> (r: &'static str)
    ensures
        r@ == spec_level_str(l),
{
    match l {
        Level::Warn => "warn",
        Level::Info => "info",
    }
}

/// Builds the presentation-ready report of a sample at the given level.
pub fn build_report(name: &String, level: Level, sample: &Sample) -> (r: StatsLog)
    ensures
        r.name@ == name@,
        r.level == level,
        r.cpu@ == spec_percent_string(sample.cpu_percent),
        r.mem@ == spec_percent_string(sample.memory_percent),
        r.temp@ == spec_temp_string(sample.avg_temperature),
        r.time@ == sample.timestamp@,
{
    let mut cpu = format_hundredths(sample.cpu_percent);
    cpu.append("%");
    let mut mem = format_hundredths(sample.memory_percent);
    mem.append("%");
    let temp = match &sample.avg_temperature {
        Some(v) => {
            let mut t = format_hundredths(*v);
            t.append("\u{b0}C");
            t
        },
        None => String::from_str("n/a"),
    };
    StatsLog {
        name: name.clone(),
        level,
        cpu,
        mem,
        temp,
        time: sample.timestamp.clone(),
    }
}

impl AlertMessage {
    /// The notification payload of a report: summary text, color and
    /// headline chosen by the severity, the report's fields in fixed
    /// order, and a constant footer. The transform is pure and total.
    pub fn from_stats(value: StatsLog) -> (r: AlertMessage)
        ensures
            is_notification_of(r, value),
    {
        let text = if value.level == Level::Warn {
            let mut t = String::from_str("Alert: ");
            t.append(value.name.as_str());
            t.append(" is experiencing high resource usage!");
            t
        } else {
            let mut t = String::from_str("Update: ");
            t.append(value.name.as_str());
            t.append(" resource usage");
            t
        };
        let color = if value.level == Level::Warn {
            String::from_str("#ff0000")
        } else {
            String::from_str("#228B22")
        };
        let title = if value.level == Level::Warn {
            String::from_str("System Alert")
        } else {
            String::from_str("System Update")
        };
        let body = if value.level == Level::Warn {
            String::from_str("The system is running low on resources.")
        } else {
            String::from_str("The system is currently ok.")
        };
        let mut fields: Vec<Field> = Vec::new();
        fields.push(Field {
            title: String::from_str("Name"),
            value: value.name,
            short: true,
        });
        fields.push(Field {
            title: String::from_str("Status"),
            value: String::from_str(level_str(value.level)),
            short: true,
        });
        fields.push(Field {
            title: String::from_str("CPU"),
            value: value.cpu,
            short: true,
        });
        fields.push(Field {
            title: String::from_str("Memory"),
            value: value.mem,
            short: true,
        });
        fields.push(Field {
            title: String::from_str("Temperature"),
            value: value.temp,
            short: true,
        });
        fields.push(Field {
            title: String::from_str("Time"),
            value: value.time,
            short: true,
        });
        let attachment = Attachment {
            color,
            title,
            text: body,
            fields,
            footer: String::from_str("StatBeacon"),
        };
        let mut attachments: Vec<Attachment> = Vec::new();
        attachments.push(attachment);
        AlertMessage { text, attachments }
    }
}

/// Whether two notification payloads agree on every rendered field.
pub open spec fn messages_equal(a: AlertMessage, b: AlertMessage) -> bool {
    &&& a.text@ == b.text@
    &&& a.attachments@.len() == b.attachments@.len()
    &&& a.attachments@.len() == 1
    &&& attachments_equal(a.attachments@[0], b.attachments@[0])
}

/// Whether two attachments agree on every rendered field.
pub open spec fn attachments_equal(a: Attachment, b: Attachment) -> bool {
    &&& a.color@ == b.color@
    &&& a.title@ == b.title@
    &&& a.text@ == b.text@
    &&& a.footer@ == b.footer@
    &&& a.fields@.len() == b.fields@.len()
    &&& forall|i: int|
        0 <= i < a.fields@.len() ==> {
            &&& #[trigger] a.fields@[i].title@ == b.fields@[i].title@
            &&& a.fields@[i].value@ == b.fields@[i].value@
            &&& a.fields@[i].short == b.fields@[i].short
        }
}

/// The report-to-notification transform is deterministic: two payloads
/// produced for the same report parts agree on every rendered field.
pub proof fn lemma_notification_deterministic(
    a: AlertMessage,
    b: AlertMessage,
    name: Seq<char>,
    level: Level,
    cpu: Seq<char>,
    mem: Seq<char>,
    temp: Seq<char>,
    time: Seq<char>,
)
    requires
        notification_matches(a, name, level, cpu, mem, temp, time),
        notification_matches(b, name, level, cpu, mem, temp, time),
    ensures
        messages_equal(a, b),
{
    assert forall|i: int|
        0 <= i < a.attachments@[0].fields@.len() implies {
            &&& #[trigger] a.attachments@[0].fields@[i].title@ == b.attachments@[0].fields@[i].title@
            &&& a.attachments@[0].fields@[i].value@ == b.attachments@[0].fields@[i].value@
            &&& a.attachments@[0].fields@[i].short == b.attachments@[0].fields@[i].short
        } by {
        assert(0 <= i < 6);
    }
}

/// A `warn` notification always carries the red color and the alert
/// headline and summary.
pub proof fn lemma_warn_notification(
    m: AlertMessage,
    name: Seq<char>,
    cpu: Seq<char>,
    mem: Seq<char>,
    temp: Seq<char>,
    time: Seq<char>,
)
    requires
        notification_matches(m, name, Level::Warn, cpu, mem, temp, time),
    ensures
        m.attachments@[0].color@ == "#ff0000"@,
        m.attachments@[0].title@ == "System Alert"@,
        m.text@ == spec_alert_text(name),
{
}

/// A non-`warn` notification always carries the green color and the
/// update headline and summary.
pub proof fn lemma_info_notification(
    m: AlertMessage,
    name: Seq<char>,
    level: Level,
    cpu: Seq<char>,
    mem: Seq<char>,
    temp: Seq<char>,
    time: Seq<char>,
)
    requires
        notification_matches(m, name, level, cpu, mem, temp, time),
        !(level is Warn),
    ensures
        m.attachments@[0].color@ == "#228B22"@,
        m.attachments@[0].title@ == "System Update"@,
        m.text@ == spec_update_text(name),
{
}

} // verus!
