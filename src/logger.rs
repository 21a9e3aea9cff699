use vstd::prelude::*;
use crate::level::{Level, passes_gate, plain_tag, tag_of};
use crate::render::{
    ClockTime, color_code, console_tag, console_tag_of, entry_line, format_time, local_now, styled, time_text,
    render_line,
};
use crate::sink::{Delivery, Output, SinkModel};

verus! {

/// What a writer is: the sink it writes to and the logger name it carries.
pub struct WriterModel {
    pub sink: SinkModel,
    pub name: Seq<char>,
}

/// One sink together with the name of the logger it writes for. The name is
/// the writer's own copy.
pub struct OutputLogger {
    output: Output,
    name: String,
}

impl View for OutputLogger {
    type V = WriterModel;

    closed spec fn view(&self) -> WriterModel {
        WriterModel { sink: self.output@, name: self.name@ }
    }
}

impl OutputLogger {
    /// A writer for `output` that carries the logger name `name`. For a file
    /// sink the caller removes the file at `output.target_path()` first, so
    /// that each writer starts its file afresh.
    pub fn new(name: String, output: Output) -> (r: OutputLogger)
        ensures
            r@ == (WriterModel { sink: output@, name: name@ }),
    {
        OutputLogger { output, name }
    }

    /// The line or entry of this writer for one message.
    /// `time` is the rendered timestamp, `shown_tag` the level's tag as
    /// the console shows it.
    fn render(&self, time: &String, level: Level, shown_tag: &String, message: &String) -> (r: Delivery)
        requires
            console_tag(level, shown_tag@),
        ensures
            delivered(self@, time@, level, message@, r),
    {
        match &self.output {
            Output::File { file_path, file_name } => {
                let text = render_line(time.as_str(), tag_of(level), self.name.as_str(), message.as_str());
                Delivery::File { directory: file_path.clone(), file_name: file_name.clone(), text }
            },
            Output::Console => {
                let line = render_line(time.as_str(), shown_tag.as_str(), self.name.as_str(), message.as_str());
                Delivery::Console { line }
            },
        }
    }
}

/// `d` is the delivery of a writer `w` for `message` at `level` and time `time`:
/// for a file sink, an entry for the same directory and file holding the
/// line with the plain tag; for the console, the line with the plain or
/// coloured tag.
pub open spec fn delivered(w: WriterModel, time: Seq<char>, level: Level, message: Seq<char>, d: Delivery) -> bool {
    match w.sink {
        SinkModel::File { directory, file_name } => match d {
            Delivery::File { directory: dd, file_name: df, text } => {
                &&& dd@ == directory
                &&& df@ == file_name
                &&& text@ == entry_line(time, plain_tag(level), w.name, message)
            },
            Delivery::Console { .. } => false,
        },
        SinkModel::Console => match d {
            Delivery::Console { line } => {
                ||| line@ == entry_line(time, plain_tag(level), w.name, message)
                ||| line@ == entry_line(time, styled(color_code(level), plain_tag(level)), w.name, message)
            },
            Delivery::File { .. } => false,
        },
    }
}

/// `ds` holds, for each writer of `ws` in order, its delivery for
/// `message` at `level` and time `time`.
pub open spec fn fanned_out(ws: Seq<WriterModel>, time: Seq<char>, level: Level, message: Seq<char>, ds: Seq<Delivery>) -> bool {
    &&& ds.len() == ws.len()
    &&& forall|i: int| 0 <= i < ws.len() ==> #[trigger] delivered(ws[i], time, level, message, ds[i])
}

/// The writers of `ws` whose sink is not `s`, in their order.
pub open spec fn without(ws: Seq<WriterModel>, s: SinkModel) -> Seq<WriterModel>
    decreases ws.len(),
{
    if ws.len() == 0 {
        ws
    } else if ws.last().sink == s {
        without(ws.drop_last(), s)
    } else {
        without(ws.drop_last(), s).push(ws.last())
    }
}

/// Detaching a sink leaves no writer for it, so detaching it a second time
/// changes nothing.
pub proof fn lemma_detach_idempotent(ws: Seq<WriterModel>, s: SinkModel)
    ensures
        forall|i: int| 0 <= i < without(ws, s).len() ==> without(ws, s)[i].sink != s,
        without(without(ws, s), s) == without(ws, s),
    decreases ws.len(),
{
    if ws.len() > 0 {
        lemma_detach_idempotent(ws.drop_last(), s);
        let r = without(ws.drop_last(), s);
        if ws.last().sink != s {
            assert(r.push(ws.last()).drop_last() =~= r);
        }
    }
}

/// A named logger: an ordered list of writers that each message is fanned
/// out to, in the order in which they were attached.
pub struct Logger {
    outputs: Vec<OutputLogger>,
    name: String,
}

impl Logger {
    /// The writers, in attachment order.
    pub closed spec fn writers(&self) -> Seq<WriterModel> {
        self.outputs@.map_values(|w: OutputLogger| w@)
    }

    /// The logger's display name.
    pub closed spec fn display_name(&self) -> Seq<char> {
        self.name@
    }

    /// A logger named `name` with one writer, for `output`.
    pub fn new(name: String, output: Output) -> (r: Logger)
        ensures
            r.display_name() == name@,
            r.writers() == seq![WriterModel { sink: output@, name: name@ }],
    {
        let w = OutputLogger::new(name.clone(), output);
        let r = Logger { outputs: vec![w], name };
        assert(r.writers() =~= seq![WriterModel { sink: output@, name: name@ }]);
        r
    }

    /// Attaches a writer for `output`, after those already attached.
    pub fn add_output(&mut self, output: Output)
        ensures
            final(self).display_name() == old(self).display_name(),
            final(self).writers() == old(self).writers().push(
                WriterModel { sink: output@, name: old(self).display_name() },
            ),
    {
        let w = OutputLogger::new(self.name.clone(), output);
        self.outputs.push(w);
        assert(self.writers() =~= old(self).writers().push(
            WriterModel { sink: output@, name: old(self).display_name() },
        ));
    }

    /// Detaches every writer whose sink equals `output`; the others keep
    /// their order. With no writer, or none that matches, nothing changes.
    pub fn delete_output(&mut self, output: Output)
        ensures
            final(self).display_name() == old(self).display_name(),
            final(self).writers() == without(old(self).writers(), output@),
    {
        let mut rest: Vec<OutputLogger> = Vec::new();
        std::mem::swap(&mut rest, &mut self.outputs);
        let ghost all = rest@.map_values(|w: OutputLogger| w@);
        let ghost n = rest@.len();
        let mut kept: Vec<OutputLogger> = Vec::new();
        while rest.len() > 0
            invariant
                self.name == old(self).name,
                all == old(self).writers(),
                n == all.len(),
                rest@.len() <= n,
                rest@.map_values(|w: OutputLogger| w@) == all.subrange(n - rest@.len(), n as int),
                kept@.map_values(|w: OutputLogger| w@) == without(all.subrange(0, n - rest@.len()), output@),
            decreases rest@.len(),
        {
            let ghost k = n - rest@.len();
            let ghost before = rest@;
            let w = rest.remove(0);
            proof {
                assert(before.map_values(|w: OutputLogger| w@)[0] == all.subrange(k, n as int)[0]);
                assert(w@ == all[k]);
                assert forall|j: int| 0 <= j < rest@.len() implies #[trigger] rest@[j]@ == all[k + 1 + j] by {
                    assert(rest@[j] == before[j + 1]);
                    assert(before.map_values(|w: OutputLogger| w@)[j + 1] == all.subrange(k, n as int)[j + 1]);
                }
                assert(rest@.map_values(|w: OutputLogger| w@) =~= all.subrange(k + 1, n as int));
                assert(all.subrange(0, k + 1).drop_last() =~= all.subrange(0, k));
            }
            if w.output != output {
                kept.push(w);
                assert(kept@.map_values(|w: OutputLogger| w@) =~= without(all.subrange(0, k + 1), output@));
            }
        }
        assert(all.subrange(0, n as int) =~= all);
        self.outputs = kept;
    }

    /// The deliveries of each writer for `message` at `level`, stamped with
    /// `time`: one delivery per writer, in attachment order. No level is
    /// filtered out here.
    pub fn log_at(&self, time: &ClockTime, level: Level, message: String) -> (r: Vec<Delivery>)
        requires
            time.wf(),
        ensures
            fanned_out(self.writers(), time_text(*time), level, message@, r@),
    {
        let stamp = format_time(time);
        let ctag = console_tag_of(level);
        let mut out: Vec<Delivery> = Vec::new();
        let mut i: usize = 0;
        while i < self.outputs.len()
            invariant
                i <= self.outputs@.len(),
                stamp@ == time_text(*time),
                console_tag(level, ctag@),
                out@.len() == i,
                forall|j: int| 0 <= j < i ==> #[trigger] delivered(self.writers()[j], stamp@, level, message@, out@[j]),
            decreases self.outputs@.len() - i,
        {
            let d = self.outputs[i].render(&stamp, level, &ctag, &message);
            out.push(d);
            i = i + 1;
        }
        out
    }

    /// The deliveries of each writer for `message` at `level`, all stamped with
    /// one reading of the local clock.
    pub fn log(&self, level: Level, message: String) -> (r: Vec<Delivery>)
        ensures
            exists|t: ClockTime| t.wf() && #[trigger] fanned_out(self.writers(), time_text(t), level, message@, r@),
    {
        let t = local_now();
        let r = self.log_at(&t, level, message);
        assert(t.wf() && fanned_out(self.writers(), time_text(t), level, message@, r@));
        r
    }

    /// Whether the facade hands a record of `level` on: Info, Warn and Error
    /// pass, Trace and Debug do not.
    pub fn enabled(&self, level: Level) -> (r: bool)
        ensures
            r == passes_gate(level),
    {
        match level {
            Level::Info | Level::Warn | Level::Error => true,
            Level::Trace | Level::Debug => false,
        }
    }

    /// A message that comes in through the facade: no delivery below Info,
    /// else the same deliveries as `log`.
    pub fn log_record(&self, level: Level, message: String) -> (r: Vec<Delivery>)
        ensures
            !passes_gate(level) ==> r@.len() == 0,
            passes_gate(level) ==> exists|t: ClockTime| t.wf() && #[trigger] fanned_out(self.writers(), time_text(t), level, message@, r@),
    {
        if self.enabled(level) {
            self.log(level, message)
        } else {
            Vec::new()
        }
    }
}

} // verus!
