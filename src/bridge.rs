use vstd::prelude::*;

use crate::error::{Error, ErrorView};

verus! {

/// The property of the global object under which the typesetting function is
/// published; no top-level name of the bundled module takes this form.
pub const FUNC_ID: &'static str = "cqbuwfsowtpq";

/// The export of the bundled module that is the typesetting function.
pub const ENTRY_EXPORT: &'static str = "default";

/// The file name the bundled module is compiled under.
pub const MODULE_NAME: &'static str = "index.js";

/// The field of the configuration record that selects display layout.
pub const DISPLAY_KEY: &'static str = "display";

/// The field of a thrown value that holds its readable message.
pub const MESSAGE_KEY: &'static str = "message";

/// The text of the error for a value that could not be passed across.
pub const NONE_ERR_MSG: &'static str = "None returned during v8 processing";

/// Where a conversion stands.
#[derive(PartialEq, Eq, Structural, Clone, Copy, Debug)]
pub enum Phase {
    /// The typesetting function is to be called, or has been and its answer
    /// is awaited.
    Calling,
    /// The call threw; the `message` field of the caught value is awaited.
    ReadingMessage,
    /// The caught value has no `message` field; its own string form is
    /// awaited.
    ReadingText,
}

/// One call of the typesetting function on one text, from its start to its
/// result.
///
/// The host asks the engine for what [`Conversion::request`] says and hands
/// the engine's answer to [`Conversion::advance`], until a result comes out.
pub struct Conversion {
    latex: String,
    display: bool,
    phase: Phase,
}

/// A [`Conversion`] as values: its text, its layout and where it stands.
pub struct ConversionView {
    pub latex: Seq<char>,
    pub display: bool,
    pub phase: Phase,
}

impl View for Conversion {
    type V = ConversionView;

    closed spec fn view(&self) -> ConversionView {
        ConversionView { latex: self.latex@, display: self.display, phase: self.phase }
    }
}

/// What the host is to ask of the engine next.
pub enum Request {
    /// Take the function stored under `key` in the global object, and call it
    /// with the guest string `text` and a fresh record whose field
    /// `config_key` holds `display`.
    Call { key: String, config_key: String, display: bool, text: String },
    /// Coerce the caught value to an object and read its field `field`.
    ReadField { field: String },
    /// Read the caught value's own string form.
    ReadText,
}

/// A [`Request`] with its texts as sequences of characters.
pub enum RequestView {
    Call { key: Seq<char>, config_key: Seq<char>, display: bool, text: Seq<char> },
    ReadField { field: Seq<char> },
    ReadText,
}

impl View for Request {
    type V = RequestView;

    open spec fn view(&self) -> RequestView {
        match self {
            Request::Call { key, config_key, display, text } => RequestView::Call {
                key: key@,
                config_key: config_key@,
                display: *display,
                text: text@,
            },
            Request::ReadField { field } => RequestView::ReadField { field: field@ },
            Request::ReadText => RequestView::ReadText,
        }
    }
}

/// What the engine answered.
pub enum Reply {
    /// A guest value could not be made or read; the exchange broke off.
    Unavailable,
    /// The call returned; this is its result in string form, with any invalid
    /// encoding replaced.
    Returned(String),
    /// The call threw.
    Threw,
    /// The engine reported a failed call but holds no caught value.
    NoException,
    /// The field that was asked for, in string form, if the value has it.
    Field(Option<String>),
    /// The caught value's own string form.
    Text(String),
}

/// A [`Reply`] with its texts as sequences of characters.
pub enum ReplyView {
    Unavailable,
    Returned(Seq<char>),
    Threw,
    NoException,
    Field(Option<Seq<char>>),
    Text(Seq<char>),
}

impl View for Reply {
    type V = ReplyView;

    open spec fn view(&self) -> ReplyView {
        match self {
            Reply::Unavailable => ReplyView::Unavailable,
            Reply::Returned(s) => ReplyView::Returned(s@),
            Reply::Threw => ReplyView::Threw,
            Reply::NoException => ReplyView::NoException,
            Reply::Field(Some(f)) => ReplyView::Field(Some(f@)),
            Reply::Field(None) => ReplyView::Field(None),
            Reply::Text(t) => ReplyView::Text(t@),
        }
    }
}

/// What follows an answer of the engine: another request, or the end.
pub enum Step {
    /// The conversion goes on from here.
    Ask(Conversion),
    /// The conversion is over, with this result.
    Finish(Result<String, Error>),
}

/// A [`Step`] with its texts as sequences of characters.
pub enum StepView {
    Ask(ConversionView),
    Finish(Result<Seq<char>, ErrorView>),
}

/// A result with its texts as sequences of characters.
pub open spec fn result_view(r: Result<String, Error>) -> Result<Seq<char>, ErrorView> {
    match r {
        Ok(s) => Ok(s@),
        Err(e) => Err(e@),
    }
}

impl View for Step {
    type V = StepView;

    open spec fn view(&self) -> StepView {
        match self {
            Step::Ask(c) => StepView::Ask(c@),
            Step::Finish(r) => StepView::Finish(result_view(*r)),
        }
    }
}

/// A conversion of `latex` in display (`true`) or inline layout, before
/// anything has been asked of the engine.
pub open spec fn initial(latex: Seq<char>, display: bool) -> ConversionView {
    ConversionView { latex, display, phase: Phase::Calling }
}

/// What a conversion asks of the engine where it stands.
pub open spec fn request_of(c: ConversionView) -> RequestView {
    match c.phase {
        Phase::Calling => RequestView::Call {
            key: FUNC_ID@,
            config_key: DISPLAY_KEY@,
            display: c.display,
            text: c.latex,
        },
        Phase::ReadingMessage => RequestView::ReadField { field: MESSAGE_KEY@ },
        Phase::ReadingText => RequestView::ReadText,
    }
}

/// What follows an answer `r` to the request of `c`. An answer that does not
/// belong to the request leaves the conversion where it stands.
pub open spec fn next(c: ConversionView, r: ReplyView) -> StepView {
    match r {
        ReplyView::Unavailable => StepView::Finish(Err(ErrorView::Other(NONE_ERR_MSG@))),
        ReplyView::Returned(s) => if c.phase == Phase::Calling {
            StepView::Finish(Ok(s))
        } else {
            StepView::Ask(c)
        },
        ReplyView::Threw => if c.phase == Phase::Calling {
            StepView::Ask(ConversionView { phase: Phase::ReadingMessage, ..c })
        } else {
            StepView::Ask(c)
        },
        ReplyView::NoException => if c.phase == Phase::ReadingMessage {
            StepView::Finish(Err(ErrorView::Unreacheable))
        } else {
            StepView::Ask(c)
        },
        ReplyView::Field(Some(m)) => if c.phase == Phase::ReadingMessage {
            StepView::Finish(Err(ErrorView::V8ExceptionThrown(m)))
        } else {
            StepView::Ask(c)
        },
        ReplyView::Field(None) => if c.phase == Phase::ReadingMessage {
            StepView::Ask(ConversionView { phase: Phase::ReadingText, ..c })
        } else {
            StepView::Ask(c)
        },
        ReplyView::Text(t) => if c.phase == Phase::ReadingText {
            StepView::Finish(Err(ErrorView::V8ExceptionThrown(t)))
        } else {
            StepView::Ask(c)
        },
    }
}

/// Where a conversion stands after the answers `rs`, one after the other;
/// answers after the end are not looked at.
pub open spec fn run(c: ConversionView, rs: Seq<ReplyView>) -> StepView
    decreases rs.len(),
{
    if rs.len() == 0 {
        StepView::Ask(c)
    } else {
        match next(c, rs[0]) {
            StepView::Ask(c2) => run(c2, rs.drop_first()),
            StepView::Finish(res) => StepView::Finish(res),
        }
    }
}

impl Conversion {
    /// Starts a conversion of `latex`, in display layout where `display` is
    /// true and inline layout where it is false.
    pub fn new(latex: &str, display: bool) -> (r: Conversion)
        ensures
            r@ == initial(latex@, display),
    {
        Conversion { latex: latex.to_owned(), display, phase: Phase::Calling }
    }

    /// The text being converted.
    pub fn latex(&self) -> (r: &str)
        ensures
            r@ == self@.latex,
    {
        self.latex.as_str()
    }

    /// Whether the text is laid out for display rather than inline.
    pub fn display(&self) -> (r: bool)
        ensures
            r == self@.display,
    {
        self.display
    }

    /// Where the conversion stands.
    pub fn phase(&self) -> (r: Phase)
        ensures
            r == self@.phase,
    {
        self.phase
    }

    /// What the host is to ask of the engine now.
    pub fn request(&self) -> (r: Request)
        ensures
            r@ == request_of(self@),
    {
        match self.phase {
            Phase::Calling => Request::Call {
                key: FUNC_ID.to_owned(),
                config_key: DISPLAY_KEY.to_owned(),
                display: self.display,
                text: self.latex.clone(),
            },
            Phase::ReadingMessage => Request::ReadField { field: MESSAGE_KEY.to_owned() },
            Phase::ReadingText => Request::ReadText,
        }
    }

    /// Takes the engine's answer to the current request and says what
    /// follows: a value that could not be passed across ends the conversion
    /// with [`Error::Other`]; a returned result ends it with that result; a
    /// thrown value ends it with [`Error::V8ExceptionThrown`], carrying the
    /// value's `message` field where it has one and else its own string form,
    /// or with [`Error::Unreacheable`] where the engine holds no thrown value.
    pub fn advance(self, reply: Reply) -> (r: Step)
        ensures
            r@ == next(self@, reply@),
    {
        match reply {
            Reply::Unavailable => Step::Finish(Err(Error::Other(NONE_ERR_MSG.to_owned()))),
            Reply::Returned(s) => if self.phase == Phase::Calling {
                Step::Finish(Ok(s))
            } else {
                Step::Ask(self)
            },
            Reply::Threw => if self.phase == Phase::Calling {
                Step::Ask(Conversion { phase: Phase::ReadingMessage, ..self })
            } else {
                Step::Ask(self)
            },
            Reply::NoException => if self.phase == Phase::ReadingMessage {
                Step::Finish(Err(Error::Unreacheable))
            } else {
                Step::Ask(self)
            },
            Reply::Field(Some(m)) => if self.phase == Phase::ReadingMessage {
                Step::Finish(Err(Error::V8ExceptionThrown(m)))
            } else {
                Step::Ask(self)
            },
            Reply::Field(None) => if self.phase == Phase::ReadingMessage {
                Step::Ask(Conversion { phase: Phase::ReadingText, ..self })
            } else {
                Step::Ask(self)
            },
            Reply::Text(t) => if self.phase == Phase::ReadingText {
                Step::Finish(Err(Error::V8ExceptionThrown(t)))
            } else {
                Step::Ask(self)
            },
        }
    }
}

/// Starts the conversion of `latex` to SVG in display layout.
pub fn convert_to_svg(latex: &str) -> (r: Conversion)
    ensures
        r@ == initial(latex@, true),
{
    Conversion::new(latex, true)
}

/// Starts the conversion of `latex` to SVG in inline layout.
pub fn convert_to_svg_inline(latex: &str) -> (r: Conversion)
    ensures
        r@ == initial(latex@, false),
{
    Conversion::new(latex, false)
}

/// Whether two courses of conversion agree: both over with one result, or both
/// still asking, at the same point of the same text.
pub open spec fn same_course(a: StepView, b: StepView) -> bool {
    match (a, b) {
        (StepView::Finish(x), StepView::Finish(y)) => x == y,
        (StepView::Ask(x), StepView::Ask(y)) => x.phase == y.phase && x.latex == y.latex,
        _ => false,
    }
}

proof fn lemma_course_ignores_layout(c1: ConversionView, c2: ConversionView, rs: Seq<ReplyView>)
    requires
        c1.phase == c2.phase,
        c1.latex == c2.latex,
    ensures
        same_course(run(c1, rs), run(c2, rs)),
    decreases rs.len(),
{
    if rs.len() > 0 {
        match (next(c1, rs[0]), next(c2, rs[0])) {
            (StepView::Ask(d1), StepView::Ask(d2)) => {
                lemma_course_ignores_layout(d1, d2, rs.drop_first());
            },
            _ => {},
        }
    }
}

/// The two layouts ask the engine for the same call on the same text, with
/// only the display flag set differently; they treat the engine's answers
/// alike, and in either layout a rendering that the engine returns is the
/// result.
pub proof fn lemma_layouts_differ_only_in_flag(latex: Seq<char>, rs: Seq<ReplyView>, svg: Seq<char>)
    ensures
        request_of(initial(latex, true)) == (RequestView::Call {
            key: FUNC_ID@,
            config_key: DISPLAY_KEY@,
            display: true,
            text: latex,
        }),
        request_of(initial(latex, false)) == (RequestView::Call {
            key: FUNC_ID@,
            config_key: DISPLAY_KEY@,
            display: false,
            text: latex,
        }),
        same_course(run(initial(latex, true), rs), run(initial(latex, false), rs)),
        run(initial(latex, true), seq![ReplyView::Returned(svg)]) == StepView::Finish(Ok(svg)),
        run(initial(latex, false), seq![ReplyView::Returned(svg)]) == StepView::Finish(Ok(svg)),
{
    lemma_course_ignores_layout(initial(latex, true), initial(latex, false), rs);
    reveal_with_fuel(run, 2);
}

/// A conversion depends on nothing but its text, its layout and the engine's
/// answers: two conversions of one text in one layout, on one engine or on
/// two, that get the same answers end alike, and a rendering that the engine
/// returns reaches the caller unchanged.
pub proof fn lemma_same_input_same_output(
    c1: ConversionView,
    c2: ConversionView,
    latex: Seq<char>,
    display: bool,
    rs: Seq<ReplyView>,
    svg: Seq<char>,
)
    requires
        c1 == initial(latex, display),
        c2 == initial(latex, display),
    ensures
        run(c1, rs) == run(c2, rs),
        run(c1, seq![ReplyView::Returned(svg)]) == StepView::Finish(Ok(svg)),
{
    reveal_with_fuel(run, 2);
}

proof fn lemma_no_success_after_throw(c: ConversionView, rs: Seq<ReplyView>)
    requires
        c.phase != Phase::Calling,
    ensures
        !(run(c, rs) matches StepView::Finish(Ok(_))),
    decreases rs.len(),
{
    if rs.len() > 0 {
        match next(c, rs[0]) {
            StepView::Ask(c2) => lemma_no_success_after_throw(c2, rs.drop_first()),
            _ => {},
        }
    }
}

/// A conversion whose call throws ends in an error, never in a result,
/// whatever the engine answers next. The error carries the thrown value's
/// `message` field where it has one, and its own string form where it has
/// none; where the engine holds no thrown value it is
/// [`Error::Unreacheable`].
pub proof fn lemma_thrown_call_is_an_error(
    latex: Seq<char>,
    display: bool,
    rs: Seq<ReplyView>,
    message: Seq<char>,
    text: Seq<char>,
)
    ensures
        !(run(initial(latex, display), seq![ReplyView::Threw] + rs) matches StepView::Finish(Ok(_))),
        run(initial(latex, display), seq![ReplyView::Threw, ReplyView::Field(Some(message))])
            == StepView::Finish(Err(ErrorView::V8ExceptionThrown(message))),
        run(
            initial(latex, display),
            seq![ReplyView::Threw, ReplyView::Field(None), ReplyView::Text(text)],
        ) == StepView::Finish(Err(ErrorView::V8ExceptionThrown(text))),
        run(initial(latex, display), seq![ReplyView::Threw, ReplyView::NoException])
            == StepView::Finish(Err(ErrorView::Unreacheable)),
{
    let c = initial(latex, display);
    let all = seq![ReplyView::Threw] + rs;
    assert(all[0] == ReplyView::Threw);
    assert(all.drop_first() =~= rs);
    lemma_no_success_after_throw(ConversionView { phase: Phase::ReadingMessage, ..c }, rs);
    let s2 = seq![ReplyView::Threw, ReplyView::Field(Some(message))];
    assert(s2.drop_first().drop_first() =~= Seq::<ReplyView>::empty());
    let s3 = seq![ReplyView::Threw, ReplyView::Field(None), ReplyView::Text(text)];
    assert(s3.drop_first() =~= seq![ReplyView::Field(None), ReplyView::Text(text)]);
    assert(s3.drop_first().drop_first() =~= seq![ReplyView::Text(text)]);
    let s4 = seq![ReplyView::Threw, ReplyView::NoException];
    assert(s4.drop_first() =~= seq![ReplyView::NoException]);
    reveal_with_fuel(run, 4);
}

} // verus!
