use vstd::prelude::*;
use vstd::string::*;

verus! {

/// The label of the supervisor's own records.
pub open spec fn controller_label() -> Seq<char> {
    "controller"@
}

/// The label of the records of the process registered under `name`.
pub open spec fn process_label(name: Seq<char>) -> Seq<char> {
    "proc."@ + name
}

/// The tag that follows a label and names the stream a line came from.
pub open spec fn stream_tag(stream: LogStream) -> Seq<char> {
    match stream {
        LogStream::Stdout => "[stdout]"@,
        LogStream::Stderr => "[stderr]"@,
    }
}

pub open spec fn spaces(n: nat) -> Seq<char> {
    Seq::new(n, |_i: int| ' ')
}

/// Labels ordered from the widest to the narrowest.
pub open spec fn widest_first(labels: Seq<Seq<char>>) -> bool {
    forall|i: int, j: int| 0 <= i < j < labels.len() ==> labels[i].len() >= labels[j].len()
}

/// The spaces that bring a column of `used` characters to `width`: none when it is
/// already as wide.
pub open spec fn padding(width: nat, used: nat) -> nat {
    if width > used {
        (width - used) as nat
    } else {
        0
    }
}

/// One output line: the label and its stream tag, padded so that the separator
/// stands in the same column for every label no wider than `width`, then the text.
pub open spec fn rendered_line(width: nat, label: Seq<char>, stream: LogStream, text: Seq<char>) -> Seq<char> {
    label + stream_tag(stream) + spaces(padding(width, label.len())) + " | "@ + text
}

#[derive(Clone, Copy, Debug, PartialEq, Eq, Structural)]
pub enum LogStream {
    Stdout,
    Stderr,
}

/// A line written by a supervised process on one of its streams.
#[derive(Clone, Debug)]
pub struct ProcessLogRecord {
    pub name: String,
    pub line: String,
}

/// A point in time, as seconds and nanoseconds since the Unix epoch (UTC).
#[derive(Clone, Copy, Debug, PartialEq, Eq, Structural)]
pub struct UtcTime {
    pub secs: i64,
    pub nanos: u32,
}

/// A message of the supervisor itself, stamped with the time it was made.
#[derive(Clone, Debug)]
pub struct ControllerLogRecord {
    pub time: UtcTime,
    pub message: String,
}

#[allow(inconsistent_fields)]
#[derive(Clone, Debug)]
pub enum LogRecord {
    Controller { stream: LogStream, record: ControllerLogRecord },
    Process { stream: LogStream, record: ProcessLogRecord },
}

/// Relies on chrono's `From<SystemTime> for DateTime<Utc>`, applied to the system
/// clock: a clock that reads earlier than the Unix epoch gives a negative number of
/// seconds, and the nanoseconds stay below one second either way.
#[verifier::external_body]
fn now_utc() -> (r: UtcTime)
    ensures
        r.nanos < 1_000_000_000,
{
    let now = chrono::DateTime::<chrono::Utc>::from(std::time::SystemTime::now());
    UtcTime { secs: now.timestamp(), nanos: now.timestamp_subsec_nanos() }
}

impl ControllerLogRecord {
    pub fn new(message: String) -> (r: Self)
        ensures
            r.message == message,
            r.time.nanos < 1_000_000_000,
    {
        ControllerLogRecord { time: now_utc(), message }
    }
}

/// The registry of display labels. Every label is registered before any line is
/// rendered, so that all lines share one column width.
#[derive(Clone, Debug)]
pub struct Logger {
    names: Vec<String>,
}

impl Logger {
    /// The registered labels, widest first.
    pub closed spec fn labels(&self) -> Seq<Seq<char>> {
        self.names@.map_values(|s: String| s@)
    }

    pub open spec fn wf(&self) -> bool {
        &&& self.labels().contains(controller_label())
        &&& widest_first(self.labels())
    }

    /// The width of the widest registered label.
    pub open spec fn width(&self) -> nat {
        self.labels()[0].len()
    }

    pub fn new() -> (r: Self)
        ensures
            r.wf(),
            r.labels() == seq![controller_label()],
    {
        let mut names: Vec<String> = Vec::new();
        names.push(String::from_str("controller"));
        let r = Logger { names };
        assert(r.labels() =~= seq![controller_label()]);
        assert(r.labels()[0] == controller_label());
        r
    }

    /// Finds, by binary search, a registered label as wide as `label`: `Ok` with its
    /// position, or `Err` with the position where a label of that width belongs.
    pub fn search_name(&self, label: &str) -> (r: Result<usize, usize>)
        requires
            self.wf(),
        ensures
            match r {
                Ok(i) => i < self.labels().len() && self.labels()[i as int].len() == label@.len(),
                Err(i) => {
                    &&& i <= self.labels().len()
                    &&& forall|j: int| 0 <= j < i ==> self.labels()[j].len() > label@.len()
                    &&& forall|j: int| i <= j < self.labels().len() ==> self.labels()[j].len() < label@.len()
                },
            },
    {
        let target = label.unicode_len();
        let mut lo: usize = 0;
        let mut hi: usize = self.names.len();
        while lo < hi
            invariant
                self.wf(),
                target == label@.len(),
                lo <= hi <= self.names@.len(),
                forall|j: int| 0 <= j < lo ==> self.labels()[j].len() > target,
                forall|j: int| hi <= j < self.labels().len() ==> self.labels()[j].len() < target,
            decreases hi - lo,
        {
            let mid = lo + (hi - lo) / 2;
            let w = self.names[mid].as_str().unicode_len();
            assert(self.labels()[mid as int] == self.names@[mid as int]@);
            if w == target {
                return Ok(mid);
            } else if w > target {
                lo = mid + 1;
            } else {
                hi = mid;
            }
        }
        Err(lo)
    }

    /// Registers the process `name`, under the label `proc.<name>`, keeping the
    /// labels ordered from the widest to the narrowest.
    pub fn register_name(&mut self, name: &str)
        requires
            old(self).wf(),
        ensures
            final(self).wf(),
            exists|i: int|
                0 <= i <= old(self).labels().len() && final(self).labels() == old(
                    self,
                ).labels().insert(i, process_label(name@)),
    {
        let mut label = String::from_str("proc.");
        label.append(name);
        let pos = match self.search_name(label.as_str()) {
            Ok(i) => i,
            Err(i) => i,
        };
        let ghost before = self.labels();
        let ghost lab = label@;
        self.names.insert(pos, label);
        assert(lab == process_label(name@));
        assert(self.labels() =~= before.insert(pos as int, lab));
        assert(before.contains(controller_label()));
        let ghost k = choose|k: int| 0 <= k < before.len() && before[k] == controller_label();
        proof {
            if k < pos {
                assert(self.labels()[k] == controller_label());
            } else {
                assert(self.labels()[k + 1] == controller_label());
            }
        }
        assert forall|i: int, j: int| 0 <= i < j < self.labels().len() implies self.labels()[i].len()
            >= self.labels()[j].len() by {
            if i < pos && j > pos {
                assert(before[i].len() >= before[j - 1].len());
            }
        }
    }

    /// The width of the widest registered label.
    pub fn longest_name(&self) -> (r: usize)
        requires
            self.wf(),
        ensures
            r == self.width(),
            forall|i: int| 0 <= i < self.labels().len() ==> self.labels()[i].len() <= r,
    {
        assert(self.labels()[0] == self.names@[0]@);
        self.names[0].as_str().unicode_len()
    }

    /// Whether `label` is registered.
    fn is_registered(&self, label: &String) -> (r: bool)
        ensures
            r == self.labels().contains(label@),
    {
        let mut i: usize = 0;
        while i < self.names.len()
            invariant
                i <= self.names@.len(),
                forall|j: int| 0 <= j < i ==> self.labels()[j] != label@,
            decreases self.names@.len() - i,
        {
            assert(self.labels()[i as int] == self.names@[i as int]@);
            if self.names[i] == *label {
                assert(self.labels()[i as int] == label@);
                return true;
            }
            i = i + 1;
        }
        false
    }

    /// Lays out one line: `label` and the stream tag, padded to the widest
    /// registered label, then ` | ` and `text`.
    fn format_line(&self, label: &str, stream: LogStream, text: &str) -> (r: String)
        requires
            self.wf(),
        ensures
            r@ == rendered_line(self.width(), label@, stream, text@),
    {
        let width = self.longest_name();
        let used = label.unicode_len();
        let pad: usize = if width > used {
            width - used
        } else {
            0
        };
        let mut out = String::new();
        out.append(label);
        match stream {
            LogStream::Stdout => out.append("[stdout]"),
            LogStream::Stderr => out.append("[stderr]"),
        }
        let ghost head = out@;
        assert(head == label@ + stream_tag(stream));
        proof {
            reveal_strlit(" ");
            assert(" "@ =~= seq![' ']);
        }
        let mut k: usize = 0;
        while k < pad
            invariant
                k <= pad,
                " "@ == seq![' '],
                out@ == head + spaces(k as nat),
            decreases pad - k,
        {
            out.append(" ");
            assert(spaces((k + 1) as nat) =~= spaces(k as nat) + " "@);
            k = k + 1;
        }
        out.append(" | ");
        out.append(text);
        assert(out@ =~= rendered_line(self.width(), label@, stream, text@));
        out
    }

    /// The line shown for a record of the supervisor itself, whose fields read `text`.
    pub fn render_controller(&self, stream: LogStream, text: &str) -> (r: String)
        requires
            self.wf(),
        ensures
            r@ == rendered_line(self.width(), controller_label(), stream, text@),
    {
        self.format_line("controller", stream, text)
    }

    /// The line shown for a line of a process, or `None` where its name was never
    /// registered.
    pub fn render_process(&self, stream: LogStream, record: &ProcessLogRecord) -> (r: Option<String>)
        requires
            self.wf(),
        ensures
            self.labels().contains(process_label(record.name@)) <==> r is Some,
            r matches Some(line) ==> line@ == rendered_line(
                self.width(),
                process_label(record.name@),
                stream,
                record.line@,
            ),
    {
        let mut label = String::from_str("proc.");
        label.append(record.name.as_str());
        assert(label@ == process_label(record.name@));
        if self.is_registered(&label) {
            Some(self.format_line(label.as_str(), stream, record.line.as_str()))
        } else {
            None
        }
    }
}

/// Once the labels are registered, every line of a registered label, the
/// supervisor's own included, puts its separator in the same column: the width
/// of the widest label plus the stream tag.
pub proof fn lemma_uniform_column(logger: Logger, label: Seq<char>, stream: LogStream, text: Seq<char>)
    requires
        logger.wf(),
        logger.labels().contains(label),
    ensures
        rendered_line(logger.width(), label, stream, text).subrange(0, logger.width() + 8int) == label
            + stream_tag(stream) + spaces(padding(logger.width(), label.len())),
        rendered_line(logger.width(), label, stream, text).subrange(
            logger.width() + 8int,
            logger.width() + 11int,
        ) == " | "@,
{
    let k = choose|k: int| 0 <= k < logger.labels().len() && logger.labels()[k] == label;
    if k > 0 {
        assert(logger.labels()[0].len() >= logger.labels()[k].len());
    }
    reveal_strlit("[stdout]");
    reveal_strlit("[stderr]");
    reveal_strlit(" | ");
    let head = label + stream_tag(stream) + spaces(padding(logger.width(), label.len()));
    assert(head.len() == logger.width() + 8);
    let line = rendered_line(logger.width(), label, stream, text);
    assert(line =~= head + " | "@ + text);
    assert(line.subrange(0, logger.width() + 8int) =~= head);
    assert(line.subrange(logger.width() + 8int, logger.width() + 11int) =~= " | "@);
}

} // verus!
