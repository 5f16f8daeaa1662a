//! Lines and reports: what a generator hands back to be written out.

use vstd::prelude::*;

verus! {

/// Where a line is meant to be written.
#[derive(Clone, Copy, Debug, PartialEq, Eq, Structural)]
pub enum Stream {
    /// The ordinary output of the program.
    Standard,
    /// The channel for failures of a discovery step.
    Diagnostic,
}

/// What a line reports.
#[derive(Clone, Copy, Debug, PartialEq, Eq, Structural)]
pub enum LineKind {
    /// Opens the host report.
    SystemHeading,
    /// Total RAM in bytes.
    TotalMemory,
    /// RAM in use in bytes.
    UsedMemory,
    /// Total swap in bytes.
    TotalSwap,
    /// Swap in use in bytes.
    UsedSwap,
    /// Name of the operating system, or the absence marker.
    SystemName,
    /// Kernel version, or the absence marker.
    KernelVersion,
    /// Operating-system version, or the absence marker.
    OsVersion,
    /// Host name, or the absence marker.
    HostName,
    /// Number of processors.
    CpuCount,
    /// One running process: identifier, name, disk usage.
    Process,
    /// Opens the list of disks.
    DisksHeading,
    /// One disk.
    Disk,
    /// Opens the list of network interfaces.
    NetworksHeading,
    /// One network interface with its cumulative byte counters.
    Network,
    /// Opens the list of thermal components.
    ComponentsHeading,
    /// One thermal component.
    Component,
    /// Name of a compute platform.
    Platform,
    /// Name of a device.
    DeviceName,
    /// Vendor of a device.
    DeviceVendor,
    /// Number of compute units of a device.
    DeviceComputeUnits,
    /// Global memory size of a device in bytes.
    DeviceGlobalMemory,
    /// The devices of one platform could not be listed.
    DeviceDiscoveryFailure,
    /// The platforms could not be listed.
    PlatformDiscoveryFailure,
}

/// One line of a report, without its line terminator.
#[derive(Clone, Debug, PartialEq, Eq)]
pub struct Line {
    pub stream: Stream,
    pub kind: LineKind,
    pub text: String,
}

/// The mathematical content of a [`Line`].
pub struct LineView {
    pub stream: Stream,
    pub kind: LineKind,
    pub text: Seq<char>,
}

impl View for Line {
    type V = LineView;

    open spec fn view(&self) -> LineView {
        LineView { stream: self.stream, kind: self.kind, text: self.text@ }
    }
}

/// A line for the ordinary output.
pub open spec fn standard_line(kind: LineKind, text: Seq<char>) -> LineView {
    LineView { stream: Stream::Standard, kind, text }
}

/// A line for the diagnostic channel.
pub open spec fn diagnostic_line(kind: LineKind, text: Seq<char>) -> LineView {
    LineView { stream: Stream::Diagnostic, kind, text }
}

/// How many lines of `lines` are of the given kind.
pub open spec fn count_kind(lines: Seq<LineView>, kind: LineKind) -> nat
    decreases lines.len(),
{
    if lines.len() == 0 {
        0
    } else {
        count_kind(lines.drop_last(), kind) + if lines.last().kind == kind {
            1nat
        } else {
            0nat
        }
    }
}

/// How many lines of `lines` are meant for the given stream.
pub open spec fn count_stream(lines: Seq<LineView>, stream: Stream) -> nat
    decreases lines.len(),
{
    if lines.len() == 0 {
        0
    } else {
        count_stream(lines.drop_last(), stream) + if lines.last().stream == stream {
            1nat
        } else {
            0nat
        }
    }
}

/// Counting by kind is additive over concatenation.
pub proof fn lemma_count_kind_add(a: Seq<LineView>, b: Seq<LineView>, kind: LineKind)
    ensures
        count_kind(a + b, kind) == count_kind(a, kind) + count_kind(b, kind),
    decreases b.len(),
{
    if b.len() > 0 {
        assert((a + b).drop_last() =~= a + b.drop_last());
        lemma_count_kind_add(a, b.drop_last(), kind);
    }
}

/// A single line counts once for its own kind and not at all for another.
pub proof fn lemma_count_kind_one(line: LineView, kind: LineKind)
    ensures
        count_kind(seq![line], kind) == if line.kind == kind {
            1nat
        } else {
            0nat
        },
{
    assert(seq![line].drop_last() =~= Seq::<LineView>::empty());
    assert(count_kind(Seq::<LineView>::empty(), kind) == 0);
}

/// Four lines count as the sum of what each counts alone.
pub proof fn lemma_count_kind_four(
    a: LineView,
    b: LineView,
    c: LineView,
    d: LineView,
    kind: LineKind,
)
    ensures
        count_kind(seq![a, b, c, d], kind) == count_kind(seq![a], kind) + count_kind(
            seq![b],
            kind,
        ) + count_kind(seq![c], kind) + count_kind(seq![d], kind),
{
    assert(seq![a, b, c, d] =~= seq![a] + seq![b] + seq![c] + seq![d]);
    lemma_count_kind_add(seq![a], seq![b], kind);
    lemma_count_kind_add(seq![a] + seq![b], seq![c], kind);
    lemma_count_kind_add(seq![a] + seq![b] + seq![c], seq![d], kind);
}

/// Lines that are all of the given kind all count.
pub proof fn lemma_count_kind_all(lines: Seq<LineView>, kind: LineKind)
    requires
        forall|i: int| 0 <= i < lines.len() ==> (#[trigger] lines[i]).kind == kind,
    ensures
        count_kind(lines, kind) == lines.len(),
    decreases lines.len(),
{
    if lines.len() > 0 {
        lemma_count_kind_all(lines.drop_last(), kind);
    }
}

/// Where no line is of the given kind, none counts.
pub proof fn lemma_count_kind_none(lines: Seq<LineView>, kind: LineKind)
    requires
        forall|i: int| 0 <= i < lines.len() ==> (#[trigger] lines[i]).kind != kind,
    ensures
        count_kind(lines, kind) == 0,
    decreases lines.len(),
{
    if lines.len() > 0 {
        lemma_count_kind_none(lines.drop_last(), kind);
    }
}

/// Lines that are all meant for the given stream all count.
pub proof fn lemma_count_stream_all(lines: Seq<LineView>, stream: Stream)
    requires
        forall|i: int| 0 <= i < lines.len() ==> (#[trigger] lines[i]).stream == stream,
    ensures
        count_stream(lines, stream) == lines.len(),
    decreases lines.len(),
{
    if lines.len() > 0 {
        lemma_count_stream_all(lines.drop_last(), stream);
    }
}

/// Where no line is meant for the given stream, none counts.
pub proof fn lemma_count_stream_none(lines: Seq<LineView>, stream: Stream)
    requires
        forall|i: int| 0 <= i < lines.len() ==> (#[trigger] lines[i]).stream != stream,
    ensures
        count_stream(lines, stream) == 0,
    decreases lines.len(),
{
    if lines.len() > 0 {
        lemma_count_stream_none(lines.drop_last(), stream);
    }
}

/// Counting by stream is additive over concatenation.
pub proof fn lemma_count_stream_add(a: Seq<LineView>, b: Seq<LineView>, stream: Stream)
    ensures
        count_stream(a + b, stream) == count_stream(a, stream) + count_stream(b, stream),
    decreases b.len(),
{
    if b.len() > 0 {
        assert((a + b).drop_last() =~= a + b.drop_last());
        lemma_count_stream_add(a, b.drop_last(), stream);
    }
}

/// An ordered collection of lines.
#[derive(Clone, Debug, PartialEq, Eq)]
pub struct Report {
    pub lines: Vec<Line>,
}

impl View for Report {
    type V = Seq<LineView>;

    open spec fn view(&self) -> Seq<LineView> {
        self.lines@.map_values(|line: Line| line@)
    }
}

impl Line {
    /// A line for the ordinary output.
    pub fn standard(kind: LineKind, text: String) -> (line: Line)
        ensures
            line@ == standard_line(kind, text@),
    {
        Line { stream: Stream::Standard, kind, text }
    }

    /// A line for the diagnostic channel.
    pub fn diagnostic(kind: LineKind, text: String) -> (line: Line)
        ensures
            line@ == diagnostic_line(kind, text@),
    {
        Line { stream: Stream::Diagnostic, kind, text }
    }
}

impl Report {
    /// The report without any line.
    pub fn new() -> (report: Report)
        ensures
            report@ == Seq::<LineView>::empty(),
    {
        Report { lines: Vec::new() }
    }

    /// Adds `line` at the end.
    pub fn push(&mut self, line: Line)
        ensures
            final(self)@ == old(self)@.push(line@),
    {
        self.lines.push(line);
    }

    /// Moves the lines of `other` to the end of this report, in their order.
    pub fn append(&mut self, other: Report)
        ensures
            final(self)@ == old(self)@ + other@,
    {
        let mut other = other;
        self.lines.append(&mut other.lines);
    }

    /// The number of lines.
    pub fn len(&self) -> (n: usize)
        ensures
            n == self@.len(),
    {
        self.lines.len()
    }

    /// The number of lines of the given kind.
    pub fn count(&self, kind: LineKind) -> (n: usize)
        ensures
            n == count_kind(self@, kind),
    {
        let mut n: usize = 0;
        let mut i: usize = 0;
        while i < self.lines.len()
            invariant
                i <= self.lines.len(),
                n <= i,
                n == count_kind(self@.take(i as int), kind),
            decreases self.lines.len() - i,
        {
            proof {
                assert(self@.take(i + 1).drop_last() =~= self@.take(i as int));
            }
            if self.lines[i].kind == kind {
                n = n + 1;
            }
            i = i + 1;
        }
        assert(self@.take(i as int) =~= self@);
        n
    }

    /// The number of lines meant for the given stream.
    pub fn count_on(&self, stream: Stream) -> (n: usize)
        ensures
            n == count_stream(self@, stream),
    {
        let mut n: usize = 0;
        let mut i: usize = 0;
        while i < self.lines.len()
            invariant
                i <= self.lines.len(),
                n <= i,
                n == count_stream(self@.take(i as int), stream),
            decreases self.lines.len() - i,
        {
            proof {
                assert(self@.take(i + 1).drop_last() =~= self@.take(i as int));
            }
            if self.lines[i].stream == stream {
                n = n + 1;
            }
            i = i + 1;
        }
        assert(self@.take(i as int) =~= self@);
        n
    }
}

} // verus!
