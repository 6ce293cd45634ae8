//! The response side: which output steps the flags allow, and the session
//! that drives one invocation from sending to the last write, one event at a
//! time. The caller performs each action and reports back what happened.
use vstd::prelude::*;
use vstd::string::*;
use crate::options::Options;

verus! {

/// The output steps that the flags allow, in their fixed order.
#[derive(Clone, Copy, Debug, PartialEq, Eq, Structural)]
pub struct OutputPlan {
    /// The sink is opened at all.
    pub write_output: bool,
    /// The header block is written.
    pub write_headers: bool,
    /// The body is read and written.
    pub read_body: bool,
}

impl OutputPlan {
    /// Each step needs the sink.
    pub open spec fn wf(self) -> bool {
        &&& self.write_headers ==> self.write_output
        &&& self.read_body ==> self.write_output
    }
}

/// The plan for the silent, include-headers and head-only flags: silence
/// suppresses every step; head-only suppresses the body.
pub open spec fn plan_of(silent: bool, include_headers: bool, head: bool) -> OutputPlan {
    OutputPlan {
        write_output: !silent,
        write_headers: !silent && include_headers,
        read_body: !silent && !head,
    }
}

/// The output plan of the options.
pub fn plan_output(opts: &Options) -> (r: OutputPlan)
    ensures
        r == plan_of(opts.silent, opts.include_headers, opts.head),
        r.wf(),
{
    OutputPlan {
        write_output: !opts.silent,
        write_headers: !opts.silent && opts.include_headers,
        read_body: !opts.silent && !opts.head,
    }
}

/// The text that reaches the sink for a response with rendered headers `h`
/// and body `b`: the header line, then the body line, each where the plan
/// allows it.
pub open spec fn output_of(plan: OutputPlan, h: Seq<char>, b: Seq<char>) -> Seq<char> {
    (if plan.write_headers {
        h + "\n"@
    } else {
        Seq::empty()
    }) + (if plan.read_body {
        b + "\n"@
    } else {
        Seq::empty()
    })
}

/// Why an invocation failed, by phase.
#[derive(Clone, Copy, Debug, PartialEq, Eq, Structural)]
pub enum Failure {
    /// The upload file could not be opened.
    Upload,
    /// The transport could not deliver the request or its response.
    Transport,
    /// The output file could not be created.
    Sink,
    /// The response body is not valid text.
    Encoding,
    /// A write to the sink, or flushing it, failed.
    Write,
}

/// Where a session stands.
#[derive(Clone, Copy, Debug, PartialEq, Eq, Structural)]
pub enum Stage {
    Idle,
    OpeningUpload,
    AwaitingResponse,
    OpeningSink,
    WritingHeaders,
    ReadingBody,
    WritingBody,
    /// Closing the sink after the last write.
    Closing,
    /// Closing the sink after a failure, which is reported once it is closed.
    ClosingAfter(Failure),
    Done,
    Failed(Failure),
}

impl Stage {
    /// The sink is open.
    pub open spec fn sink_open(self) -> bool {
        self is WritingHeaders || self is ReadingBody || self is WritingBody || self is Closing
            || self is ClosingAfter
    }

    /// The session is over.
    pub open spec fn is_final(self) -> bool {
        self is Done || self is Failed
    }
}

/// What the caller reports back.
#[derive(Debug, PartialEq, Eq)]
pub enum Event {
    Start,
    UploadOpened,
    UploadFailed,
    /// The response arrived; the text is its rendered header mapping.
    Response(String),
    SendFailed,
    SinkOpened,
    SinkFailed,
    Written,
    WriteFailed,
    /// The body, read whole as text.
    Body(String),
    BodyFailed,
    Closed,
    /// Flushing or closing the sink failed.
    CloseFailed,
}

/// What the caller is asked to do next.
#[derive(Debug, PartialEq, Eq)]
pub enum Action {
    OpenUpload,
    Send,
    OpenSink,
    /// Write this text to the sink.
    Write(String),
    ReadBody,
    CloseSink,
    Finish,
    Fail(Failure),
    /// The event did not fit the stage; nothing changed.
    Ignore,
}

/// The model of an event.
pub enum EventModel {
    Start,
    UploadOpened,
    UploadFailed,
    Response(Seq<char>),
    SendFailed,
    SinkOpened,
    SinkFailed,
    Written,
    WriteFailed,
    Body(Seq<char>),
    BodyFailed,
    Closed,
    CloseFailed,
}

/// The model of an action.
pub enum ActionModel {
    OpenUpload,
    Send,
    OpenSink,
    Write(Seq<char>),
    ReadBody,
    CloseSink,
    Finish,
    Fail(Failure),
    Ignore,
}

impl View for Event {
    type V = EventModel;

    open spec fn view(&self) -> EventModel {
        match self {
            Event::Start => EventModel::Start,
            Event::UploadOpened => EventModel::UploadOpened,
            Event::UploadFailed => EventModel::UploadFailed,
            Event::Response(h) => EventModel::Response(h@),
            Event::SendFailed => EventModel::SendFailed,
            Event::SinkOpened => EventModel::SinkOpened,
            Event::SinkFailed => EventModel::SinkFailed,
            Event::Written => EventModel::Written,
            Event::WriteFailed => EventModel::WriteFailed,
            Event::Body(b) => EventModel::Body(b@),
            Event::BodyFailed => EventModel::BodyFailed,
            Event::Closed => EventModel::Closed,
            Event::CloseFailed => EventModel::CloseFailed,
        }
    }
}

impl View for Action {
    type V = ActionModel;

    open spec fn view(&self) -> ActionModel {
        match self {
            Action::OpenUpload => ActionModel::OpenUpload,
            Action::Send => ActionModel::Send,
            Action::OpenSink => ActionModel::OpenSink,
            Action::Write(t) => ActionModel::Write(t@),
            Action::ReadBody => ActionModel::ReadBody,
            Action::CloseSink => ActionModel::CloseSink,
            Action::Finish => ActionModel::Finish,
            Action::Fail(f) => ActionModel::Fail(*f),
            Action::Ignore => ActionModel::Ignore,
        }
    }
}

/// One invocation in progress.
pub struct Session {
    pub plan: OutputPlan,
    /// The request carries an upload, opened before sending.
    pub upload: bool,
    pub stage: Stage,
    /// The rendered headers of the response, once it has come.
    pub headers: String,
}

/// The model of a session.
pub struct SessionModel {
    pub plan: OutputPlan,
    pub upload: bool,
    pub stage: Stage,
    pub headers: Seq<char>,
}

impl View for Session {
    type V = SessionModel;

    open spec fn view(&self) -> SessionModel {
        SessionModel { plan: self.plan, upload: self.upload, stage: self.stage, headers: self.headers@ }
    }
}

impl SessionModel {
    /// The same session at another stage.
    pub open spec fn at(self, stage: Stage) -> SessionModel {
        SessionModel { stage, ..self }
    }

    /// Once the headers are out of the way: read the body, or close.
    pub open spec fn after_headers(self) -> (SessionModel, ActionModel) {
        if self.plan.read_body {
            (self.at(Stage::ReadingBody), ActionModel::ReadBody)
        } else {
            (self.at(Stage::Closing), ActionModel::CloseSink)
        }
    }

    /// The stage that an event leads to from this one, and the action asked
    /// for. An event that does not fit the stage changes nothing.
    pub open spec fn next(self, e: EventModel) -> (SessionModel, ActionModel) {
        let ignore = (self, ActionModel::Ignore);
        match self.stage {
            Stage::Idle => match e {
                EventModel::Start => if self.upload {
                    (self.at(Stage::OpeningUpload), ActionModel::OpenUpload)
                } else {
                    (self.at(Stage::AwaitingResponse), ActionModel::Send)
                },
                _ => ignore,
            },
            Stage::OpeningUpload => match e {
                EventModel::UploadOpened => (self.at(Stage::AwaitingResponse), ActionModel::Send),
                EventModel::UploadFailed => (
                    self.at(Stage::Failed(Failure::Upload)),
                    ActionModel::Fail(Failure::Upload),
                ),
                _ => ignore,
            },
            Stage::AwaitingResponse => match e {
                EventModel::Response(h) => if self.plan.write_output {
                    (
                        SessionModel { stage: Stage::OpeningSink, headers: h, ..self },
                        ActionModel::OpenSink,
                    )
                } else {
                    (self.at(Stage::Done), ActionModel::Finish)
                },
                EventModel::SendFailed => (
                    self.at(Stage::Failed(Failure::Transport)),
                    ActionModel::Fail(Failure::Transport),
                ),
                _ => ignore,
            },
            Stage::OpeningSink => match e {
                EventModel::SinkOpened => if self.plan.write_headers {
                    (self.at(Stage::WritingHeaders), ActionModel::Write(self.headers + "\n"@))
                } else {
                    self.after_headers()
                },
                EventModel::SinkFailed => (
                    self.at(Stage::Failed(Failure::Sink)),
                    ActionModel::Fail(Failure::Sink),
                ),
                _ => ignore,
            },
            Stage::WritingHeaders => match e {
                EventModel::Written => self.after_headers(),
                EventModel::WriteFailed => (
                    self.at(Stage::ClosingAfter(Failure::Write)),
                    ActionModel::CloseSink,
                ),
                _ => ignore,
            },
            Stage::ReadingBody => match e {
                EventModel::Body(b) => (self.at(Stage::WritingBody), ActionModel::Write(b + "\n"@)),
                EventModel::BodyFailed => (
                    self.at(Stage::ClosingAfter(Failure::Encoding)),
                    ActionModel::CloseSink,
                ),
                _ => ignore,
            },
            Stage::WritingBody => match e {
                EventModel::Written => (self.at(Stage::Closing), ActionModel::CloseSink),
                EventModel::WriteFailed => (
                    self.at(Stage::ClosingAfter(Failure::Write)),
                    ActionModel::CloseSink,
                ),
                _ => ignore,
            },
            Stage::Closing => match e {
                EventModel::Closed => (self.at(Stage::Done), ActionModel::Finish),
                EventModel::CloseFailed => (
                    self.at(Stage::Failed(Failure::Write)),
                    ActionModel::Fail(Failure::Write),
                ),
                _ => ignore,
            },
            Stage::ClosingAfter(f) => match e {
                EventModel::Closed | EventModel::CloseFailed => (
                    self.at(Stage::Failed(f)),
                    ActionModel::Fail(f),
                ),
                _ => ignore,
            },
            Stage::Done => ignore,
            Stage::Failed(_) => ignore,
        }
    }
}

/// Appends a newline to `s`.
fn line(s: String) -> (r: String)
    ensures
        r@ == s@ + "\n"@,
{
    let mut r = s;
    r.append("\n");
    r
}

impl Session {
    /// A session for the options, before anything was sent.
    pub fn new(opts: &Options) -> (r: Session)
        ensures
            r.plan == plan_of(opts.silent, opts.include_headers, opts.head),
            r.upload == opts.form_file is Some,
            r.stage == Stage::Idle,
            r@.headers.len() == 0,
    {
        Session {
            plan: plan_output(opts),
            upload: opts.form_file.is_some(),
            stage: Stage::Idle,
            headers: String::new(),
        }
    }

    /// Takes in what happened and says what to do next.
    pub fn step(&mut self, e: Event) -> (r: Action)
        ensures
            (final(self)@, r@) == old(self)@.next(e@),
    {
        match (self.stage, e) {
            (Stage::Idle, Event::Start) => if self.upload {
                self.stage = Stage::OpeningUpload;
                Action::OpenUpload
            } else {
                self.stage = Stage::AwaitingResponse;
                Action::Send
            },
            (Stage::OpeningUpload, Event::UploadOpened) => {
                self.stage = Stage::AwaitingResponse;
                Action::Send
            },
            (Stage::OpeningUpload, Event::UploadFailed) => {
                self.stage = Stage::Failed(Failure::Upload);
                Action::Fail(Failure::Upload)
            },
            (Stage::AwaitingResponse, Event::Response(h)) => if self.plan.write_output {
                self.stage = Stage::OpeningSink;
                self.headers = h;
                Action::OpenSink
            } else {
                self.stage = Stage::Done;
                Action::Finish
            },
            (Stage::AwaitingResponse, Event::SendFailed) => {
                self.stage = Stage::Failed(Failure::Transport);
                Action::Fail(Failure::Transport)
            },
            (Stage::OpeningSink, Event::SinkOpened) => if self.plan.write_headers {
                self.stage = Stage::WritingHeaders;
                Action::Write(line(self.headers.clone()))
            } else {
                self.after_headers()
            },
            (Stage::OpeningSink, Event::SinkFailed) => {
                self.stage = Stage::Failed(Failure::Sink);
                Action::Fail(Failure::Sink)
            },
            (Stage::WritingHeaders, Event::Written) => self.after_headers(),
            (Stage::WritingHeaders, Event::WriteFailed) => {
                self.stage = Stage::ClosingAfter(Failure::Write);
                Action::CloseSink
            },
            (Stage::ReadingBody, Event::Body(b)) => {
                self.stage = Stage::WritingBody;
                Action::Write(line(b))
            },
            (Stage::ReadingBody, Event::BodyFailed) => {
                self.stage = Stage::ClosingAfter(Failure::Encoding);
                Action::CloseSink
            },
            (Stage::WritingBody, Event::Written) => {
                self.stage = Stage::Closing;
                Action::CloseSink
            },
            (Stage::WritingBody, Event::WriteFailed) => {
                self.stage = Stage::ClosingAfter(Failure::Write);
                Action::CloseSink
            },
            (Stage::Closing, Event::Closed) => {
                self.stage = Stage::Done;
                Action::Finish
            },
            (Stage::Closing, Event::CloseFailed) => {
                self.stage = Stage::Failed(Failure::Write);
                Action::Fail(Failure::Write)
            },
            (Stage::ClosingAfter(f), Event::Closed) | (Stage::ClosingAfter(f), Event::CloseFailed) => {
                self.stage = Stage::Failed(f);
                Action::Fail(f)
            },
            _ => Action::Ignore,
        }
    }

    /// Once the headers are out of the way: read the body, or close.
    fn after_headers(&mut self) -> (r: Action)
        ensures
            (final(self)@, r@) == old(self)@.after_headers(),
    {
        if self.plan.read_body {
            self.stage = Stage::ReadingBody;
            Action::ReadBody
        } else {
            self.stage = Stage::Closing;
            Action::CloseSink
        }
    }
}

} // verus!
