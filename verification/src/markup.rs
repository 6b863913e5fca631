//! Styled text: a list of pieces of text, each with the markup elements that
//! apply to it, the colour specification that the elements add up to, and the
//! order in which a terminal stream is told to show them.

use termcolor::{Color, ColorSpec};
use vstd::prelude::*;

verus! {

/// `termcolor::Color`, the colours of a terminal, with its variants as they
/// are declared there.
#[verifier::external_type_specification]
pub struct ExColor(termcolor::Color);

/// `termcolor::ColorSpec`, a colour specification. Nothing is known of what
/// is inside one but what the functions below say.
#[verifier::external_type_specification]
#[verifier::external_body]
pub struct ExColorSpec(termcolor::ColorSpec);

/// The foreground colour that `termcolor::ColorSpec::fg` reports for `spec`.
pub uninterp spec fn fg_of(spec: ColorSpec) -> Option<Color>;

/// What `termcolor::ColorSpec::bold` reports for `spec`.
pub uninterp spec fn bold_of(spec: ColorSpec) -> bool;

/// What `termcolor::ColorSpec::dimmed` reports for `spec`.
pub uninterp spec fn dimmed_of(spec: ColorSpec) -> bool;

/// What `termcolor::ColorSpec::italic` reports for `spec`.
pub uninterp spec fn italic_of(spec: ColorSpec) -> bool;

/// What `termcolor::ColorSpec::underline` reports for `spec`.
pub uninterp spec fn underline_of(spec: ColorSpec) -> bool;

/// The background colour that `termcolor::ColorSpec::bg` reports for `spec`.
pub uninterp spec fn bg_of(spec: ColorSpec) -> Option<Color>;

/// What `termcolor::ColorSpec::intense` reports for `spec`.
pub uninterp spec fn intense_of(spec: ColorSpec) -> bool;

/// What `termcolor::ColorSpec::strikethrough` reports for `spec`.
pub uninterp spec fn strikethrough_of(spec: ColorSpec) -> bool;

/// What `termcolor::ColorSpec::reset` reports for `spec`: whether the stream
/// is reset each time the specification is applied.
pub uninterp spec fn reset_of(spec: ColorSpec) -> bool;

/// The settings of a colour specification.
pub struct Style {
    pub fg: Option<Color>,
    pub bold: bool,
    pub dimmed: bool,
    pub italic: bool,
    pub underline: bool,
    pub bg: Option<Color>,
    pub intense: bool,
    pub strikethrough: bool,
    pub reset: bool,
}

impl Style {
    /// No colour and no text style; the stream is reset when the style is
    /// applied.
    pub open spec fn plain() -> Style {
        Style {
            fg: None,
            bold: false,
            dimmed: false,
            italic: false,
            underline: false,
            bg: None,
            intense: false,
            strikethrough: false,
            reset: true,
        }
    }
}

/// The style that a colour specification holds.
pub open spec fn style_of(spec: ColorSpec) -> Style {
    Style {
        fg: fg_of(spec),
        bold: bold_of(spec),
        dimmed: dimmed_of(spec),
        italic: italic_of(spec),
        underline: underline_of(spec),
        bg: bg_of(spec),
        intense: intense_of(spec),
        strikethrough: strikethrough_of(spec),
        reset: reset_of(spec),
    }
}

/// `termcolor::ColorSpec::new`: the specification it makes has no colour
/// and no text style, and has the reset switched on.
pub assume_specification[ ColorSpec::new ]() -> (spec: ColorSpec)
    ensures
        fg_of(spec) is None,
        !bold_of(spec),
        !dimmed_of(spec),
        !italic_of(spec),
        !underline_of(spec),
        bg_of(spec) is None,
        !intense_of(spec),
        !strikethrough_of(spec),
        reset_of(spec),
;

/// Calls `termcolor::ColorSpec::set_fg`, which stores `color` as the
/// foreground colour and leaves every other setting as it was.
#[verifier::external_body]
fn set_fg(spec: &mut ColorSpec, color: Option<Color>)
    ensures
        fg_of(*final(spec)) == color,
        bold_of(*final(spec)) == bold_of(*old(spec)),
        dimmed_of(*final(spec)) == dimmed_of(*old(spec)),
        italic_of(*final(spec)) == italic_of(*old(spec)),
        underline_of(*final(spec)) == underline_of(*old(spec)),
        bg_of(*final(spec)) == bg_of(*old(spec)),
        intense_of(*final(spec)) == intense_of(*old(spec)),
        strikethrough_of(*final(spec)) == strikethrough_of(*old(spec)),
        reset_of(*final(spec)) == reset_of(*old(spec)),
{
    spec.set_fg(color);
}

/// Calls `termcolor::ColorSpec::set_bold`, which stores `yes` as the bold
/// setting and leaves every other setting as it was.
#[verifier::external_body]
fn set_bold(spec: &mut ColorSpec, yes: bool)
    ensures
        fg_of(*final(spec)) == fg_of(*old(spec)),
        bold_of(*final(spec)) == yes,
        dimmed_of(*final(spec)) == dimmed_of(*old(spec)),
        italic_of(*final(spec)) == italic_of(*old(spec)),
        underline_of(*final(spec)) == underline_of(*old(spec)),
        bg_of(*final(spec)) == bg_of(*old(spec)),
        intense_of(*final(spec)) == intense_of(*old(spec)),
        strikethrough_of(*final(spec)) == strikethrough_of(*old(spec)),
        reset_of(*final(spec)) == reset_of(*old(spec)),
{
    spec.set_bold(yes);
}

/// Calls `termcolor::ColorSpec::set_dimmed`, which stores `yes` as the dimmed
/// setting and leaves every other setting as it was.
#[verifier::external_body]
fn set_dimmed(spec: &mut ColorSpec, yes: bool)
    ensures
        fg_of(*final(spec)) == fg_of(*old(spec)),
        bold_of(*final(spec)) == bold_of(*old(spec)),
        dimmed_of(*final(spec)) == yes,
        italic_of(*final(spec)) == italic_of(*old(spec)),
        underline_of(*final(spec)) == underline_of(*old(spec)),
        bg_of(*final(spec)) == bg_of(*old(spec)),
        intense_of(*final(spec)) == intense_of(*old(spec)),
        strikethrough_of(*final(spec)) == strikethrough_of(*old(spec)),
        reset_of(*final(spec)) == reset_of(*old(spec)),
{
    spec.set_dimmed(yes);
}

/// Calls `termcolor::ColorSpec::set_italic`, which stores `yes` as the italic
/// setting and leaves every other setting as it was.
#[verifier::external_body]
fn set_italic(spec: &mut ColorSpec, yes: bool)
    ensures
        fg_of(*final(spec)) == fg_of(*old(spec)),
        bold_of(*final(spec)) == bold_of(*old(spec)),
        dimmed_of(*final(spec)) == dimmed_of(*old(spec)),
        italic_of(*final(spec)) == yes,
        underline_of(*final(spec)) == underline_of(*old(spec)),
        bg_of(*final(spec)) == bg_of(*old(spec)),
        intense_of(*final(spec)) == intense_of(*old(spec)),
        strikethrough_of(*final(spec)) == strikethrough_of(*old(spec)),
        reset_of(*final(spec)) == reset_of(*old(spec)),
{
    spec.set_italic(yes);
}

/// Calls `termcolor::ColorSpec::set_underline`, which stores `yes` as the
/// underline setting and leaves every other setting as it was.
#[verifier::external_body]
fn set_underline(spec: &mut ColorSpec, yes: bool)
    ensures
        fg_of(*final(spec)) == fg_of(*old(spec)),
        bold_of(*final(spec)) == bold_of(*old(spec)),
        dimmed_of(*final(spec)) == dimmed_of(*old(spec)),
        italic_of(*final(spec)) == italic_of(*old(spec)),
        underline_of(*final(spec)) == yes,
        bg_of(*final(spec)) == bg_of(*old(spec)),
        intense_of(*final(spec)) == intense_of(*old(spec)),
        strikethrough_of(*final(spec)) == strikethrough_of(*old(spec)),
        reset_of(*final(spec)) == reset_of(*old(spec)),
{
    spec.set_underline(yes);
}

/// Enumeration of all the supported markup elements.
#[derive(Copy, Clone, Debug, PartialEq, Eq)]
pub enum MarkupElement {
    Emphasis,
    Dim,
    Italic,
    Underline,
    Error,
    Success,
    Warn,
    Info,
}

impl MarkupElement {
    /// The style that results when this element is added to `style`: a text
    /// style is switched on, a colour takes the place of the foreground.
    pub open spec fn applied_to(self, style: Style) -> Style {
        match self {
            MarkupElement::Emphasis => Style { bold: true, ..style },
            MarkupElement::Dim => Style { dimmed: true, ..style },
            MarkupElement::Italic => Style { italic: true, ..style },
            MarkupElement::Underline => Style { underline: true, ..style },
            MarkupElement::Error => Style { fg: Some(Color::Red), ..style },
            MarkupElement::Success => Style { fg: Some(Color::Green), ..style },
            MarkupElement::Warn => Style { fg: Some(Color::Yellow), ..style },
            MarkupElement::Info => Style { fg: Some(Color::Blue), ..style },
        }
    }

    /// Mutate a colour specification in place to apply this element's
    /// associated style to it.
    pub fn update_color(&self, color: &mut ColorSpec)
        ensures
            style_of(*final(color)) == self.applied_to(style_of(*old(color))),
    {
        match self {
            // Text Styles
            MarkupElement::Emphasis => {
                set_bold(color, true);
            },
            MarkupElement::Dim => {
                set_dimmed(color, true);
            },
            MarkupElement::Italic => {
                set_italic(color, true);
            },
            MarkupElement::Underline => {
                set_underline(color, true);
            },
            // Text Colors
            MarkupElement::Error => {
                set_fg(color, Some(Color::Red));
            },
            MarkupElement::Success => {
                set_fg(color, Some(Color::Green));
            },
            MarkupElement::Warn => {
                set_fg(color, Some(Color::Yellow));
            },
            MarkupElement::Info => {
                set_fg(color, Some(Color::Blue));
            },
        }
    }
}

/// The style that a list of elements adds up to, each applied in turn to a
/// plain style.
pub open spec fn style_of_elements(elements: Seq<MarkupElement>) -> Style
    decreases elements.len(),
{
    if elements.len() == 0 {
        Style::plain()
    } else {
        elements.last().applied_to(style_of_elements(elements.drop_last()))
    }
}

/// A single markup node: a piece of text with a number of associated styles
/// applied to it.
#[derive(Copy, Clone, Debug)]
pub struct MarkupNode<'fmt> {
    pub elements: &'fmt [MarkupElement],
    pub content: &'fmt str,
}

impl<'fmt> MarkupNode<'fmt> {
    /// The colour specification for this node: all its elements accumulated
    /// onto one specification.
    pub fn color(&self) -> (color: ColorSpec)
        ensures
            style_of(color) == style_of_elements(self.elements@),
    {
        let mut color = ColorSpec::new();
        let mut i: usize = 0;
        while i < self.elements.len()
            invariant
                i <= self.elements@.len(),
                style_of(color) == style_of_elements(self.elements@.take(i as int)),
            decreases self.elements@.len() - i,
        {
            proof {
                let next = self.elements@.take(i + 1);
                assert(next.drop_last() == self.elements@.take(i as int));
                assert(next.last() == self.elements@[i as int]);
            }
            self.elements[i].update_color(&mut color);
            i += 1;
        }
        proof {
            assert(self.elements@.take(i as int) == self.elements@);
        }
        color
    }
}

/// A list of markup nodes.
pub struct Markup<'fmt>(pub &'fmt [MarkupNode<'fmt>]);

/// One thing to do on a stream that shows colours.
pub enum PrintAction<'fmt> {
    /// Set the colour settings of the stream to this specification.
    SetColor(ColorSpec),
    /// Write this text.
    Write(&'fmt str),
    /// Reset the colour settings of the stream to its own.
    Reset,
}

/// A print action as a plain value.
pub enum PrintActionView {
    SetColor(Style),
    Write(Seq<char>),
    Reset,
}

impl<'fmt> View for PrintAction<'fmt> {
    type V = PrintActionView;

    open spec fn view(&self) -> PrintActionView {
        match *self {
            PrintAction::SetColor(color) => PrintActionView::SetColor(style_of(color)),
            PrintAction::Write(text) => PrintActionView::Write(text@),
            PrintAction::Reset => PrintActionView::Reset,
        }
    }
}

/// Where printing stands while the stream carries out an action. `E` is the
/// error of the stream.
pub enum PrintState<E> {
    /// The colour of the node with this index is being set.
    Coloring(usize),
    /// The text of the node with this index is being written.
    Writing(usize),
    /// The stream is being reset; the error, if any, is the one that ended
    /// the printing early.
    Resetting(Option<E>),
}

/// How printing goes on.
pub enum PrintStep<'fmt, E> {
    /// Carry out the action and come back with its outcome and the state.
    Perform(PrintAction<'fmt>, PrintState<E>),
    /// Printing is over, with this result.
    Finished(Result<(), E>),
}

/// A print step as a plain value.
pub enum PrintStepView<E> {
    Perform(PrintActionView, PrintState<E>),
    Finished(Result<(), E>),
}

impl<'fmt, E> View for PrintStep<'fmt, E> {
    type V = PrintStepView<E>;

    open spec fn view(&self) -> PrintStepView<E> {
        match *self {
            PrintStep::Perform(action, state) => PrintStepView::Perform(action@, state),
            PrintStep::Finished(result) => PrintStepView::Finished(result),
        }
    }
}

impl<'fmt> Markup<'fmt> {
    /// The step that begins the node of index `i`, or the reset of the stream
    /// where there is no such node.
    pub open spec fn spec_begin<E>(self, i: int) -> PrintStepView<E> {
        if 0 <= i < self.0@.len() {
            PrintStepView::Perform(
                PrintActionView::SetColor(style_of_elements(self.0@[i].elements@)),
                PrintState::Coloring(i as usize),
            )
        } else {
            PrintStepView::Perform(PrintActionView::Reset, PrintState::Resetting(None))
        }
    }

    /// The first step of printing.
    pub open spec fn spec_print<E>(self) -> PrintStepView<E> {
        self.spec_begin(0)
    }

    /// The step that follows `state` once the stream has answered `outcome`.
    ///
    /// A failure while a node is shown leads to the reset and is kept; the
    /// answer to the reset ends the printing. The error that was kept is the
    /// result whatever the reset came to: the reset is only attempted. Where
    /// nothing was kept, the result is the outcome of the reset.
    pub open spec fn spec_resume<E>(
        self,
        state: PrintState<E>,
        outcome: Result<(), E>,
    ) -> PrintStepView<E> {
        match state {
            PrintState::Resetting(kept) => match kept {
                Some(error) => PrintStepView::Finished(Err(error)),
                None => match outcome {
                    Err(error) => PrintStepView::Finished(Err(error)),
                    Ok(_) => PrintStepView::Finished(Ok(())),
                },
            },
            PrintState::Coloring(i) => match outcome {
                Err(error) => PrintStepView::Perform(
                    PrintActionView::Reset,
                    PrintState::Resetting(Some(error)),
                ),
                Ok(_) => if i < self.0@.len() {
                    PrintStepView::Perform(
                        PrintActionView::Write(self.0@[i as int].content@),
                        PrintState::Writing(i),
                    )
                } else {
                    PrintStepView::Perform(PrintActionView::Reset, PrintState::Resetting(None))
                },
            },
            PrintState::Writing(i) => match outcome {
                Err(error) => PrintStepView::Perform(
                    PrintActionView::Reset,
                    PrintState::Resetting(Some(error)),
                ),
                Ok(_) => self.spec_begin(i + 1),
            },
        }
    }

    fn begin<E>(&self, i: usize) -> (step: PrintStep<'fmt, E>)
        ensures
            step@ == self.spec_begin::<E>(i as int),
    {
        if i < self.0.len() {
            PrintStep::Perform(PrintAction::SetColor(self.0[i].color()), PrintState::Coloring(i))
        } else {
            PrintStep::Perform(PrintAction::Reset, PrintState::Resetting(None))
        }
    }

    /// Starts printing the markup to a stream that shows colours: the answer
    /// is the first thing to do on the stream. The caller carries each action
    /// out and hands its outcome to [`Markup::resume`], until that answers
    /// with the result.
    pub fn print<E>(&self) -> (step: PrintStep<'fmt, E>)
        ensures
            step@ == self.spec_print::<E>(),
    {
        self.begin(0)
    }

    /// Goes on printing after the stream has carried out the action that came
    /// with `state`, with `outcome`.
    pub fn resume<E>(&self, state: PrintState<E>, outcome: Result<(), E>) -> (step: PrintStep<
        'fmt,
        E,
    >)
        ensures
            step@ == self.spec_resume(state, outcome),
    {
        match state {
            PrintState::Resetting(kept) => match kept {
                Some(error) => PrintStep::Finished(Err(error)),
                None => match outcome {
                    Err(error) => PrintStep::Finished(Err(error)),
                    Ok(_) => PrintStep::Finished(Ok(())),
                },
            },
            PrintState::Coloring(i) => match outcome {
                Err(error) => PrintStep::Perform(
                    PrintAction::Reset,
                    PrintState::Resetting(Some(error)),
                ),
                Ok(_) => if i < self.0.len() {
                    PrintStep::Perform(PrintAction::Write(self.0[i].content), PrintState::Writing(i))
                } else {
                    PrintStep::Perform(PrintAction::Reset, PrintState::Resetting(None))
                },
            },
            PrintState::Writing(i) => match outcome {
                Err(error) => PrintStep::Perform(
                    PrintAction::Reset,
                    PrintState::Resetting(Some(error)),
                ),
                Ok(_) => if i < self.0.len() {
                    self.begin(i + 1)
                } else {
                    PrintStep::Perform(PrintAction::Reset, PrintState::Resetting(None))
                },
            },
        }
    }
}

/// What printing has come to after some answers of the stream.
pub struct Rendering<E> {
    /// The actions that the stream was asked for, in order.
    pub actions: Seq<PrintActionView>,
    /// The result, once printing is over.
    pub result: Option<Result<(), E>>,
}

impl<'fmt> Markup<'fmt> {
    /// Printing from `step` on, on a stream that answers the actions it is
    /// asked for with `outcomes`, one after the other. Printing stops at the
    /// result, or waits where the outcomes run out.
    pub open spec fn spec_drive<E>(
        self,
        step: PrintStepView<E>,
        outcomes: Seq<Result<(), E>>,
    ) -> Rendering<E>
        decreases outcomes.len(),
    {
        match step {
            PrintStepView::Finished(result) => Rendering {
                actions: Seq::empty(),
                result: Some(result),
            },
            PrintStepView::Perform(action, state) => if outcomes.len() == 0 {
                Rendering { actions: seq![action], result: None }
            } else {
                let rest = self.spec_drive(
                    self.spec_resume(state, outcomes.first()),
                    outcomes.drop_first(),
                );
                Rendering { actions: seq![action] + rest.actions, result: rest.result }
            },
        }
    }

    /// Printing the whole markup on a stream that answers with `outcomes`.
    pub open spec fn rendering<E>(self, outcomes: Seq<Result<(), E>>) -> Rendering<E> {
        self.spec_drive(self.spec_print(), outcomes)
    }

    /// The actions of a printing in which nothing fails, from the node of
    /// index `from` on: for each node its colour, then its text, and at the
    /// end the reset.
    pub open spec fn unfailing_actions(self, from: int) -> Seq<PrintActionView>
        decreases self.0@.len() - from,
    {
        if 0 <= from < self.0@.len() {
            seq![
                PrintActionView::SetColor(style_of_elements(self.0@[from].elements@)),
                PrintActionView::Write(self.0@[from].content@),
            ] + self.unfailing_actions(from + 1)
        } else {
            seq![PrintActionView::Reset]
        }
    }
}

/// A step asks for the reset exactly when its state is that of resetting.
spec fn reset_goes_with_resetting<E>(step: PrintStepView<E>) -> bool {
    match step {
        PrintStepView::Perform(action, state) => (action is Reset) == (state is Resetting),
        PrintStepView::Finished(_) => true,
    }
}

proof fn lemma_drive_ends_with_reset<E>(
    markup: Markup,
    step: PrintStepView<E>,
    outcomes: Seq<Result<(), E>>,
)
    requires
        step is Perform,
        reset_goes_with_resetting(step),
    ensures
        markup.spec_drive(step, outcomes).result is Some ==> markup.spec_drive(
            step,
            outcomes,
        ).actions.last() is Reset,
        markup.spec_drive(step, outcomes).actions.len() > 0,
    decreases outcomes.len(),
{
    if outcomes.len() > 0 {
        let state = step->Perform_1;
        let next = markup.spec_resume(state, outcomes.first());
        assert(reset_goes_with_resetting(next));
        if next is Perform {
            lemma_drive_ends_with_reset(markup, next, outcomes.drop_first());
        }
    }
}

/// However the stream answers, a printing that is over has asked for the
/// reset of the stream as its last action: also one that a failure ended
/// early.
pub proof fn lemma_print_ends_with_reset<E>(markup: Markup, outcomes: Seq<Result<(), E>>)
    ensures
        markup.rendering(outcomes).actions.len() > 0,
        markup.rendering(outcomes).result is Some ==> markup.rendering(
            outcomes,
        ).actions.last() is Reset,
{
    lemma_drive_ends_with_reset(markup, markup.spec_print::<E>(), outcomes);
}

proof fn lemma_drive_unfailing<E>(markup: Markup, from: int, outcomes: Seq<Result<(), E>>)
    requires
        0 <= from <= markup.0@.len(),
        forall|k: int| 0 <= k < outcomes.len() ==> outcomes[k] is Ok,
    ensures
        outcomes.len() > 2 * (markup.0@.len() - from) ==> markup.spec_drive(
            markup.spec_begin(from),
            outcomes,
        ) == (Rendering::<E> { actions: markup.unfailing_actions(from), result: Some(Ok(())) }),
        outcomes.len() <= 2 * (markup.0@.len() - from) ==> markup.spec_drive(
            markup.spec_begin(from),
            outcomes,
        ).result is None,
    decreases markup.0@.len() - from,
{
    let begin = markup.spec_begin::<E>(from);
    assert(markup.0@.len() == markup.0.len());
    if from == markup.0@.len() {
        if outcomes.len() > 0 {
            let next = markup.spec_resume::<E>(PrintState::Resetting(None), outcomes.first());
            assert(outcomes[0] is Ok);
            assert(next == PrintStepView::<E>::Finished(Ok(())));
            let rest = markup.spec_drive(next, outcomes.drop_first());
            assert(rest.actions =~= Seq::empty());
            assert(markup.spec_drive(begin, outcomes).actions =~= markup.unfailing_actions(from));
        }
    } else if outcomes.len() > 0 {
        assert(outcomes[0] is Ok);
        let written = markup.spec_resume::<E>(
            PrintState::Coloring(from as usize),
            outcomes.first(),
        );
        let tail = outcomes.drop_first();
        if tail.len() > 0 {
            assert(tail[0] == outcomes[1]);
            let next = markup.spec_resume::<E>(PrintState::Writing(from as usize), tail.first());
            assert(next == markup.spec_begin::<E>(from + 1));
            let rest = tail.drop_first();
            assert forall|k: int| 0 <= k < rest.len() implies rest[k] is Ok by {
                assert(rest[k] == outcomes[k + 2]);
            }
            lemma_drive_unfailing(markup, from + 1, rest);
            let below = markup.spec_drive(next, rest);
            let middle = markup.spec_drive(written, tail);
            assert(middle.actions == seq![
                PrintActionView::Write(markup.0@[from].content@),
            ] + below.actions);
            let whole = markup.spec_drive(begin, outcomes);
            assert(whole.actions == seq![
                PrintActionView::SetColor(style_of_elements(markup.0@[from].elements@)),
            ] + middle.actions);
            if outcomes.len() > 2 * (markup.0@.len() - from) {
                assert(whole.actions =~= markup.unfailing_actions(from));
            }
        }
    }
}

/// On a stream that never fails, printing asks for the colour and then the
/// text of each node in order, then for the reset, and succeeds. It is over
/// with the answer to the reset and not before.
pub proof fn lemma_print_on_unfailing_stream<E>(markup: Markup, outcomes: Seq<Result<(), E>>)
    requires
        forall|k: int| 0 <= k < outcomes.len() ==> outcomes[k] is Ok,
    ensures
        outcomes.len() > 2 * markup.0@.len() ==> markup.rendering(outcomes) == (Rendering::<
            E,
        > { actions: markup.unfailing_actions(0), result: Some(Ok(())) }),
        outcomes.len() <= 2 * markup.0@.len() ==> markup.rendering(outcomes).result is None,
{
    lemma_drive_unfailing(markup, 0, outcomes);
}

/// The result of a printing that is over after `count` answers, the last of
/// which is that to the reset: the error of the answer before the reset, if
/// that was a failure; else the error of the reset, if the reset failed;
/// else success.
pub open spec fn spec_result_of<E>(outcomes: Seq<Result<(), E>>, count: int) -> Result<(), E> {
    if count >= 2 && outcomes[count - 2] is Err {
        Err(outcomes[count - 2]->Err_0)
    } else if outcomes[count - 1] is Err {
        Err(outcomes[count - 1]->Err_0)
    } else {
        Ok(())
    }
}

proof fn lemma_drive_result<E>(
    markup: Markup,
    step: PrintStepView<E>,
    outcomes: Seq<Result<(), E>>,
)
    requires
        step is Perform,
        step->Perform_1 is Resetting ==> step->Perform_1 == PrintState::<E>::Resetting(None),
    ensures
        markup.spec_drive(step, outcomes).result is Some ==> {
            let count = markup.spec_drive(step, outcomes).actions.len() as int;
            &&& 1 <= count <= outcomes.len()
            &&& forall|k: int| 0 <= k < count - 2 ==> outcomes[k] is Ok
            &&& markup.spec_drive(step, outcomes).result == Some(spec_result_of(outcomes, count))
        },
    decreases outcomes.len(),
{
    if outcomes.len() > 0 {
        let state = step->Perform_1;
        let next = markup.spec_resume(state, outcomes.first());
        let tail = outcomes.drop_first();
        let rest = markup.spec_drive(next, tail);
        if state is Resetting {
            assert(rest.actions.len() == 0);
        } else if outcomes.first() is Err {
            if tail.len() > 0 {
                let last = markup.spec_resume(next->Perform_1, tail.first());
                assert(last is Finished);
                assert(markup.spec_drive(last, tail.drop_first()).actions.len() == 0);
                assert(rest.actions.len() == 1);
                assert(tail[0] == outcomes[1]);
            }
        } else {
            lemma_drive_result(markup, next, tail);
            if rest.result is Some {
                let count = rest.actions.len() as int;
                assert(tail[count - 1] == outcomes[count]);
                if count >= 2 {
                    assert(tail[count - 2] == outcomes[count - 1]);
                }
                assert forall|k: int| 0 <= k < count + 1 - 2 implies outcomes[k] is Ok by {
                    if k > 0 {
                        assert(tail[k - 1] == outcomes[k]);
                    }
                }
            }
        }
    }
}

/// No failure of the stream is swallowed. A printing that is over has had an
/// answer to each of its actions; none before the last two was a failure,
/// since the first failure leads to the reset at once; and its result is the
/// error that led to the reset if there was one, whether or not the reset
/// failed too, else the error of the reset if the reset failed, else success.
pub proof fn lemma_print_reports_failure<E>(markup: Markup, outcomes: Seq<Result<(), E>>)
    ensures
        markup.rendering(outcomes).result is Some ==> {
            let count = markup.rendering(outcomes).actions.len() as int;
            &&& 1 <= count <= outcomes.len()
            &&& forall|k: int| 0 <= k < count - 2 ==> outcomes[k] is Ok
            &&& markup.rendering(outcomes).result == Some(spec_result_of(outcomes, count))
        },
{
    lemma_drive_result(markup, markup.spec_print::<E>(), outcomes);
}

} // verus!
