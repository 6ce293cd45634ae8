//! What holds of the builder and the session over all inputs and all runs.
use vstd::prelude::*;
use crate::headers::{header_of, headers_of, first_colon_at, request_headers};
use crate::request::{BodyModel, body_of, file_name_of};
use crate::text::trim;
use crate::writer::{ActionModel, EventModel, OutputPlan, SessionModel, Stage, output_of, plan_of};

verus! {

/// The header list of the tokens `a` followed by `b` is that of `a` followed
/// by that of `b`.
pub proof fn lemma_headers_of_concat(a: Seq<Seq<char>>, b: Seq<Seq<char>>)
    ensures
        headers_of(a + b) == headers_of(a) + headers_of(b),
    decreases b.len(),
{
    if b.len() == 0 {
        assert(a + b =~= a);
        assert(headers_of(a) + headers_of(b) =~= headers_of(a));
    } else {
        lemma_headers_of_concat(a, b.drop_last());
        assert((a + b).drop_last() =~= a + b.drop_last());
        assert((a + b).last() == b.last());
        match header_of(b.last()) {
            Some(h) => {
                assert(headers_of(a) + headers_of(b) =~= (headers_of(a) + headers_of(
                    b.drop_last(),
                )).push(h));
            },
            None => {},
        }
    }
}

/// A token without a colon stands for no header.
pub proof fn lemma_no_colon_no_header(t: Seq<char>)
    requires
        !t.contains(':'),
    ensures
        header_of(t) is None,
{
    assert forall|i: int| !first_colon_at(t, i) by {
        if 0 <= i < t.len() && t[i] == ':' {
            assert(t.contains(':'));
        }
    }
}

/// A token without a colon is left out of the request's headers wherever it
/// stands among the others, and nothing else changes.
pub proof fn lemma_colonless_token_dropped(a: Seq<Seq<char>>, t: Seq<char>, b: Seq<Seq<char>>)
    requires
        !t.contains(':'),
    ensures
        headers_of(a + seq![t] + b) == headers_of(a + b),
{
    lemma_no_colon_no_header(t);
    lemma_headers_of_concat(a + seq![t], b);
    lemma_headers_of_concat(a, seq![t]);
    lemma_headers_of_concat(a, b);
    assert(seq![t].drop_last() =~= Seq::<Seq<char>>::empty());
    assert(seq![t].last() == t);
    assert(headers_of(Seq::<Seq<char>>::empty()) =~= Seq::empty());
    assert(headers_of(seq![t]) =~= Seq::empty());
    assert(headers_of(a) + headers_of(seq![t]) =~= headers_of(a));
}

/// Every header that the tokens give has a non-empty name and a non-empty
/// value.
pub proof fn lemma_header_parts_nonempty(raws: Seq<Seq<char>>)
    ensures
        forall|i: int|
            0 <= i < headers_of(raws).len() ==> (#[trigger] headers_of(raws)[i]).0.len() > 0
                && headers_of(raws)[i].1.len() > 0,
    decreases raws.len(),
{
    if raws.len() > 0 {
        lemma_header_parts_nonempty(raws.drop_last());
        let rest = headers_of(raws.drop_last());
        match header_of(raws.last()) {
            Some(h) => {
                assert(h.0.len() > 0 && h.1.len() > 0);
                assert forall|i: int| 0 <= i < rest.push(h).len() implies (#[trigger] rest.push(
                    h,
                )[i]).0.len() > 0 && rest.push(h)[i].1.len() > 0 by {
                    if i < rest.len() {
                        assert(rest.push(h)[i] == rest[i]);
                    }
                }
            },
            None => {},
        }
    }
}

/// A token splits at its first colon only: with a colon-free name part, the
/// value is everything after that colon, trimmed, later colons included.
pub proof fn lemma_split_at_first_colon(name: Seq<char>, value: Seq<char>)
    requires
        !name.contains(':'),
        trim(name).len() > 0,
        trim(value).len() > 0,
    ensures
        header_of(name + seq![':'] + value) == Some((trim(name), trim(value))),
{
    let raw = name + seq![':'] + value;
    let i = name.len() as int;
    assert forall|j: int| 0 <= j < i implies raw[j] != ':' by {
        assert(raw[j] == name[j]);
        if name[j] == ':' {
            assert(name.contains(':'));
        }
    }
    assert(first_colon_at(raw, i));
    let k = choose|k: int| first_colon_at(raw, k);
    assert(k == i);
    assert(raw.subrange(0, i) =~= name);
    assert(raw.subrange(i + 1, raw.len() as int) =~= value);
}

/// With a bearer token, the request carries `Authorization: Bearer <token>`
/// as its last header, whatever the raw tokens hold.
pub proof fn lemma_bearer_always_sent(
    cookie: Option<Seq<char>>,
    raws: Seq<Seq<char>>,
    token: Seq<char>,
)
    ensures
        request_headers(cookie, raws, Some(token)).last() == ("Authorization"@, "Bearer "@
            + token),
        request_headers(cookie, raws, Some(token)).contains(("Authorization"@, "Bearer "@ + token)),
{
    let hs = request_headers(cookie, raws, Some(token));
    assert(hs.len() > 0);
    assert(hs[hs.len() - 1] == ("Authorization"@, "Bearer "@ + token));
}

/// Given both a form file and raw data, the upload is the body, every time.
pub proof fn lemma_upload_wins(path: Seq<char>, data: Seq<char>)
    ensures
        body_of(Some(path), Some(data)) == body_of(Some(path), None),
        file_name_of(path) matches Some(n) ==> body_of(Some(path), Some(data)) == Ok::<
            BodyModel,
            crate::request::RequestError,
        >(BodyModel::Upload(path, n)),
{
}

/// The actions of a session fed `es` one by one, and where it ends.
pub open spec fn run(s: SessionModel, es: Seq<EventModel>) -> (SessionModel, Seq<ActionModel>)
    decreases es.len(),
{
    if es.len() == 0 {
        (s, Seq::empty())
    } else {
        let (s1, acts) = run(s, es.drop_last());
        let (s2, a) = s1.next(es.last());
        (s2, acts.push(a))
    }
}

/// The text that the write actions carry, in order.
pub open spec fn written(acts: Seq<ActionModel>) -> Seq<char>
    decreases acts.len(),
{
    if acts.len() == 0 {
        Seq::empty()
    } else {
        written(acts.drop_last()) + match acts.last() {
            ActionModel::Write(t) => t,
            _ => Seq::empty(),
        }
    }
}

/// The stage agrees with the plan: a stage that needs a step is reached only
/// where the plan allows that step.
pub open spec fn consistent(s: SessionModel) -> bool {
    &&& s.plan.wf()
    &&& (s.stage.sink_open() || s.stage is OpeningSink) ==> s.plan.write_output
    &&& s.stage is WritingHeaders ==> s.plan.write_headers
    &&& (s.stage is ReadingBody || s.stage is WritingBody) ==> s.plan.read_body
}

/// The plan allows the action.
pub open spec fn allowed(plan: OutputPlan, a: ActionModel) -> bool {
    &&& (a is OpenSink || a is Write || a is CloseSink) ==> plan.write_output
    &&& a is ReadBody ==> plan.read_body
}

proof fn lemma_step_allowed(s: SessionModel, e: EventModel)
    requires
        consistent(s),
    ensures
        consistent(s.next(e).0),
        s.next(e).0.plan == s.plan,
        s.next(e).0.upload == s.upload,
        allowed(s.plan, s.next(e).1),
{
}

proof fn lemma_run_allowed(s: SessionModel, es: Seq<EventModel>)
    requires
        consistent(s),
    ensures
        consistent(run(s, es).0),
        run(s, es).0.plan == s.plan,
        run(s, es).1.len() == es.len(),
        forall|i: int| 0 <= i < es.len() ==> allowed(s.plan, #[trigger] run(s, es).1[i]),
    decreases es.len(),
{
    if es.len() > 0 {
        lemma_run_allowed(s, es.drop_last());
        let (s1, acts) = run(s, es.drop_last());
        lemma_step_allowed(s1, es.last());
        let all = run(s, es).1;
        assert forall|i: int| 0 <= i < es.len() implies allowed(s.plan, #[trigger] all[i]) by {
            if i < es.len() - 1 {
                assert(all[i] == acts[i]);
            }
        }
    }
}

/// A fresh session for the given flags.
pub open spec fn fresh(silent: bool, include_headers: bool, head: bool, upload: bool) -> SessionModel {
    SessionModel {
        plan: plan_of(silent, include_headers, head),
        upload,
        stage: Stage::Idle,
        headers: Seq::empty(),
    }
}

/// Silent: whatever happens, the sink is never opened, nothing is written and
/// the body is never read; yet the request is sent (after the upload, if any,
/// is opened).
pub proof fn lemma_silent_writes_nothing(
    include_headers: bool,
    head: bool,
    upload: bool,
    es: Seq<EventModel>,
)
    ensures
        forall|i: int|
            0 <= i < es.len() ==> !(#[trigger] run(fresh(true, include_headers, head, upload), es).1[i] is OpenSink
                || run(fresh(true, include_headers, head, upload), es).1[i] is Write
                || run(fresh(true, include_headers, head, upload), es).1[i] is ReadBody),
        !upload ==> fresh(true, include_headers, head, upload).next(EventModel::Start).1
            is Send,
        upload ==> fresh(true, include_headers, head, upload).next(EventModel::Start).0.next(
            EventModel::UploadOpened,
        ).1 is Send,
{
    lemma_run_allowed(fresh(true, include_headers, head, upload), es);
}

/// Head-only: whatever happens, the body is never read.
pub proof fn lemma_head_never_reads_body(
    silent: bool,
    include_headers: bool,
    upload: bool,
    es: Seq<EventModel>,
)
    ensures
        forall|i: int|
            0 <= i < es.len() ==> !(#[trigger] run(fresh(silent, include_headers, true, upload), es).1[i] is ReadBody),
{
    lemma_run_allowed(fresh(silent, include_headers, true, upload), es);
}

/// With headers included and the body wanted, a response with rendered
/// headers `h` and body `b` that goes through without failure puts exactly
/// `h`, a newline, `b` and a newline on the sink, in that order.
pub proof fn lemma_full_output(h: Seq<char>, b: Seq<char>)
    ensures
        ({
            let es = seq![
                EventModel::Start,
                EventModel::Response(h),
                EventModel::SinkOpened,
                EventModel::Written,
                EventModel::Body(b),
                EventModel::Written,
                EventModel::Closed,
            ];
            let (s, acts) = run(fresh(false, true, false, false), es);
            &&& s.stage == Stage::Done
            &&& acts == seq![
                ActionModel::Send,
                ActionModel::OpenSink,
                ActionModel::Write(h + "\n"@),
                ActionModel::ReadBody,
                ActionModel::Write(b + "\n"@),
                ActionModel::CloseSink,
                ActionModel::Finish,
            ]
            &&& written(acts) == output_of(plan_of(false, true, false), h, b)
            &&& written(acts) == h + "\n"@ + b + "\n"@
        }),
{
    let es = seq![
        EventModel::Start,
        EventModel::Response(h),
        EventModel::SinkOpened,
        EventModel::Written,
        EventModel::Body(b),
        EventModel::Written,
        EventModel::Closed,
    ];
    let s0 = fresh(false, true, false, false);
    reveal_with_fuel(run, 8);
    reveal_with_fuel(written, 8);
    assert(es.drop_last().drop_last().drop_last().drop_last().drop_last().drop_last().drop_last()
        =~= Seq::<EventModel>::empty());
    let (s, acts) = run(s0, es);
    assert(acts =~= seq![
        ActionModel::Send,
        ActionModel::OpenSink,
        ActionModel::Write(h + "\n"@),
        ActionModel::ReadBody,
        ActionModel::Write(b + "\n"@),
        ActionModel::CloseSink,
        ActionModel::Finish,
    ]);
    assert(written(acts) =~= h + "\n"@ + b + "\n"@);
    assert(output_of(plan_of(false, true, false), h, b) =~= h + "\n"@ + b + "\n"@);
}

/// Once the sink is open, nothing ends the session before closing it was
/// tried: a failed write or an unreadable body first asks for the sink to be
/// closed, and the failure is reported only then.
pub proof fn lemma_sink_closed_on_failure(s: SessionModel, e: EventModel)
    requires
        s.stage.sink_open(),
    ensures
        !(s.stage is ClosingAfter || s.stage is Closing) ==> !(s.next(e).1 is Fail),
        !(s.stage is ClosingAfter || s.stage is Closing) ==> !s.next(e).0.stage.is_final(),
        (s.stage is WritingHeaders || s.stage is WritingBody) && e is WriteFailed ==> {
            &&& s.next(e).1 is CloseSink
            &&& s.next(e).0.next(EventModel::Closed).1 == ActionModel::Fail(
                crate::writer::Failure::Write,
            )
        },
        s.stage is ReadingBody && e is BodyFailed ==> {
            &&& s.next(e).1 is CloseSink
            &&& s.next(e).0.next(EventModel::Closed).1 == ActionModel::Fail(
                crate::writer::Failure::Encoding,
            )
        },
{
}

} // verus!
