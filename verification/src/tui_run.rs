//! The decisions of the interface's main loop: starting and stopping the
//! listening pipeline as the interface asks, and what the model listing of
//! the server names.
//!
//! The loop itself (drawing, reading the terminal, the pipeline's tasks,
//! the HTTP request) belongs to the program around the library.
use vstd::prelude::*;
use crate::provider::{json_step, member_exec, JsonValue, SegmentView};
use crate::text::{chars_of, decimal, decimal_string, string_push, strip_end_char};
use crate::tui_app::{follow_selection, texts, App};

verus! {

/// What the main loop does with the listening pipeline.
#[derive(Debug, Clone, Copy, PartialEq, Eq, Structural)]
pub enum PipelineAction {
    /// Start it: listening was switched on.
    Start,
    /// Stop it: listening was switched off.
    Stop,
    /// Leave it as it is.
    Keep,
}

/// What to do with the pipeline when the interface wants listening on or
/// off and the pipeline is running or not.
pub open spec fn pipeline_action_spec(wanted: bool, running: bool) -> PipelineAction {
    if wanted && !running {
        PipelineAction::Start
    } else if !wanted && running {
        PipelineAction::Stop
    } else {
        PipelineAction::Keep
    }
}

/// Decides what to do with the pipeline.
pub fn pipeline_action(wanted: bool, running: bool) -> (r: PipelineAction)
    ensures
        r == pipeline_action_spec(wanted, running),
{
    if wanted && !running {
        PipelineAction::Start
    } else if !wanted && running {
        PipelineAction::Stop
    } else {
        PipelineAction::Keep
    }
}

/// Whether the typing settings the pipeline uses changed since the last
/// event (they are sent to it when they did).
pub fn typing_settings_changed(app: &App, progressive_before: bool, correction_before: bool) -> (r:
    bool)
    ensures
        r == (app.progressive_typing != progressive_before || app.auto_correction
            != correction_before),
{
    app.progressive_typing != progressive_before || app.auto_correction != correction_before
}

impl App {
    /// The pipeline started.
    pub fn on_pipeline_started(&mut self)
        requires
            old(self).wf(),
        ensures
            final(self).wf(),
            final(self).vad_active == old(self).vad_active,
            texts(final(self).logs@) == texts(old(self).logs@).push("VAD pipeline started"@),
            final(self).selected_log == follow_selection(old(self).logs@, old(self).selected_log),
    {
        self.add_log("VAD pipeline started");
    }

    /// The pipeline could not start: listening is switched back off and
    /// the error logged.
    pub fn on_pipeline_failed(&mut self, error: &str)
        requires
            old(self).wf(),
        ensures
            final(self).wf(),
            !final(self).vad_active,
            texts(final(self).logs@) == texts(old(self).logs@).push("Failed to start VAD: "@ + error@),
            final(self).selected_log == follow_selection(old(self).logs@, old(self).selected_log),
    {
        self.vad_active = false;
        let mut msg = "Failed to start VAD: ".to_string();
        msg.append(error);
        self.add_log(msg.as_str());
    }

    /// The pipeline stopped: nobody is speaking any more.
    pub fn on_pipeline_stopped(&mut self)
        requires
            old(self).wf(),
        ensures
            final(self).wf(),
            !final(self).is_speaking,
            final(self).vad_active == old(self).vad_active,
            texts(final(self).logs@) == texts(old(self).logs@).push("VAD pipeline stopped"@),
            final(self).selected_log == follow_selection(old(self).logs@, old(self).selected_log),
    {
        self.is_speaking = false;
        self.add_log("VAD pipeline stopped");
    }
}

/// Starting and stopping as asked: after the loop's step, the pipeline runs
/// exactly when listening is wanted (a failed start switches listening off).
pub proof fn law_pipeline_follows_wish(wanted: bool, running: bool, start_ok: bool)
    ensures
        ({
            let a = pipeline_action_spec(wanted, running);
            let running_after = match a {
                PipelineAction::Start => start_ok,
                PipelineAction::Stop => false,
                PipelineAction::Keep => running,
            };
            let wanted_after = if a == PipelineAction::Start && !start_ok { false } else { wanted };
            running_after == wanted_after
        }),
{
}

/// The model list URL of a server: its URL without trailing slashes, then
/// `/v1/models`.
pub open spec fn models_url_spec(server: Seq<char>) -> Seq<char> {
    strip_end_char(server, '/') + "/v1/models"@
}

/// The model list URL of a server.
pub fn models_url(server: &str) -> (r: String)
    ensures
        r@ == models_url_spec(server@),
{
    let v = chars_of(server);
    let mut hi = v.len();
    assert(v@.take(hi as int) =~= v@);
    while hi > 0 && v[hi - 1] == '/'
        invariant
            hi <= v.len(),
            v@ == server@,
            strip_end_char(v@, '/') == strip_end_char(v@.take(hi as int), '/'),
        decreases hi,
    {
        assert(v@.take(hi as int).drop_last() =~= v@.take(hi - 1));
        hi = hi - 1;
    }
    proof {
        if hi > 0 {
            assert(v@.take(hi as int).last() != '/');
        }
    }
    let mut s = crate::text::string_of_range(&v, 0, hi);
    assert(v@.subrange(0, hi as int) =~= v@.take(hi as int));
    s.append("/v1/models");
    s
}

/// The name of the first model a model listing (`{"data": [{"id": ...},
/// ...]}`) names, if it is a string.
pub open spec fn listed_model(json: JsonValue) -> Option<Seq<char>> {
    match json_step(json, SegmentView::Field("data"@)) {
        Some(d) => match json_step(d, SegmentView::Index(0)) {
            Some(first) => match json_step(first, SegmentView::Field("id"@)) {
                Some(JsonValue::Str(t)) => Some(t@),
                _ => None,
            },
            None => None,
        },
        None => None,
    }
}

fn member<'a>(v: &'a JsonValue, name: &str) -> (r: Option<&'a JsonValue>)
    ensures
        r matches Some(x) ==> json_step(*v, SegmentView::Field(name@)) == Some(*x),
        r is None ==> json_step(*v, SegmentView::Field(name@)) is None,
{
    match v {
        JsonValue::Object(entries) => {
            let nv = chars_of(name);
            match member_exec(entries, &nv) {
                Some(k) => Some(&entries[k].1),
                None => None,
            }
        },
        _ => None,
    }
}

/// The name of the first listed model.
pub fn model_from_listing(json: &JsonValue) -> (r: Option<String>)
    ensures
        r matches Some(t) ==> listed_model(*json) == Some(t@),
        r is None ==> listed_model(*json) is None,
{
    let data = match member(json, "data") {
        Some(d) => d,
        None => return None,
    };
    let first = match data {
        JsonValue::Array(items) => {
            if items.len() > 0 {
                &items[0]
            } else {
                return None;
            }
        },
        _ => return None,
    };
    match member(first, "id") {
        Some(JsonValue::Str(t)) => Some(t.clone()),
        _ => None,
    }
}

/// Log lines joined with line feeds between them.
pub open spec fn joined_lines(s: Seq<Seq<char>>) -> Seq<char>
    decreases s.len(),
{
    if s.len() == 0 {
        Seq::empty()
    } else if s.len() == 1 {
        s[0]
    } else {
        joined_lines(s.drop_last()) + seq!['\n'] + s.last()
    }
}

/// The file name of an export made at `secs` seconds since the epoch.
pub open spec fn export_file_name(secs: u64) -> Seq<char> {
    "ears-"@ + decimal(secs as nat) + ".log"@
}

/// The file name of an export made at `secs` seconds since the epoch.
pub fn default_export_name(secs: u64) -> (r: String)
    ensures
        r@ == export_file_name(secs),
{
    let mut s = "ears-".to_string();
    s.append(decimal_string(secs).as_str());
    s.append(".log");
    s
}

impl App {
    /// What an export writes: the log lines, joined by line feeds.
    pub fn export_content(&self) -> (r: String)
        ensures
            r@ == joined_lines(texts(self.logs@)),
    {
        let mut s = String::new();
        let mut i: usize = 0;
        while i < self.logs.len()
            invariant
                i <= self.logs@.len(),
                s@ == joined_lines(texts(self.logs@.take(i as int))),
            decreases self.logs@.len() - i,
        {
            if i > 0 {
                string_push(&mut s, '\n');
            }
            s.append(self.logs[i].as_str());
            i = i + 1;
            assert(texts(self.logs@.take(i as int)).drop_last() =~= texts(self.logs@.take(i - 1)));
            assert(s@ =~= joined_lines(texts(self.logs@.take(i as int))));
        }
        assert(self.logs@.take(self.logs@.len() as int) =~= self.logs@);
        s
    }

    /// The export was written to `path`, with `entries` log lines: the log
    /// says so (the selection does not move).
    pub fn on_export_written(&mut self, path: &str, entries: usize)
        ensures
            texts(final(self).logs@) == texts(old(self).logs@).push(
                "Logs exported to: "@ + path@ + " ("@ + decimal(entries as nat) + " entries)"@,
            ),
            *final(self) == (App { logs: final(self).logs, ..*old(self) }),
    {
        let mut m = "Logs exported to: ".to_string();
        m.append(path);
        m.append(" (");
        m.append(decimal_string(entries as u64).as_str());
        m.append(" entries)");
        let ghost m_v = m@;
        self.logs.push(m);
        assert(texts(self.logs@) =~= texts(old(self).logs@).push(m_v));
    }

    /// The export failed, while creating its directory or while writing:
    /// the log says so (the selection does not move).
    pub fn on_export_failed(&mut self, creating_directory: bool, error: &str)
        ensures
            texts(final(self).logs@) == texts(old(self).logs@).push(
                (if creating_directory {
                    "Export failed (mkdir): "@
                } else {
                    "Export failed: "@
                }) + error@,
            ),
            *final(self) == (App { logs: final(self).logs, ..*old(self) }),
    {
        let mut m = if creating_directory {
            "Export failed (mkdir): ".to_string()
        } else {
            "Export failed: ".to_string()
        };
        m.append(error);
        let ghost m_v = m@;
        self.logs.push(m);
        assert(texts(self.logs@) =~= texts(old(self).logs@).push(m_v));
    }
}

} // verus!
