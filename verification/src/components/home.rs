//! The root component: it owns the focus, the URL input, the request panel,
//! the state of the response pane and the registry of clickable regions.

use crate::action::{Action, ActionView};
use crate::app::Mode;
use crate::components::request::{tab_after_key, Request, RequestFrame, RequestView};
use crate::components::url_input::{
    edit_key, edits_one_line, is_line_break, is_one_line, is_plain_edit,
    lemma_plain_edit_keeps_one_line, lemma_single_line_has_no_line_break,
    lemma_single_line_of_one_line, single_line, url_input_cursor, url_input_lines,
    url_input_selection, EditKey, UrlInput,
};
use crate::components::Component;
use crate::config::{Config, ConfigView};
use crate::event::{KeyCode, KeyEvent, KeyEventKind, MouseEvent};
use crate::geometry::Rect;
use crate::layout::{
    all_shares, follows_wishes, has_one_filler, is_plain, is_row_of, lengths, lie_inside, others,
    shares, size_along, spans_across, split, start_along, Constraint, Direction,
};
use crate::regions::{first_hit, Region, Regions};
use crate::transport::{RequestSpec, RequestSpecView};
use crate::types::HttpMethod;
use tokio::sync::mpsc::UnboundedSender;
use vstd::prelude::*;

verus! {

/// What the response pane shows.
#[derive(Debug, PartialEq, Eq)]
pub enum ResponseState {
    /// Nothing was sent yet.
    Idle,
    /// A request was sent and has not come back.
    Pending,
    /// The last call that ended brought a response.
    Received { status: u16, body: String, elapsed_ms: u64 },
    /// The last call that ended failed in the transport.
    Failed { message: String },
}

/// The state of the response pane as contracts see it.
pub enum ResponseStateView {
    Idle,
    Pending,
    Received { status: u16, body: Seq<char>, elapsed_ms: u64 },
    Failed { message: Seq<char> },
}

impl View for ResponseState {
    type V = ResponseStateView;

    open spec fn view(&self) -> ResponseStateView {
        match self {
            ResponseState::Idle => ResponseStateView::Idle,
            ResponseState::Pending => ResponseStateView::Pending,
            ResponseState::Received { status, body, elapsed_ms } => ResponseStateView::Received {
                status: *status,
                body: body@,
                elapsed_ms: *elapsed_ms,
            },
            ResponseState::Failed { message } => ResponseStateView::Failed { message: message@ },
        }
    }
}

/// What a draw pass of the root hands to the painter: where the title, the
/// URL input, the request panel and the response pane go, which mode has the
/// focus, and the layout of the request panel.
#[derive(Clone, Copy, Debug, PartialEq, Eq, Structural)]
pub struct HomeFrame {
    pub title_area: Rect,
    pub url_area: Rect,
    pub request_area: Rect,
    pub response_area: Rect,
    pub mode: Mode,
    pub request: RequestFrame,
}

impl HomeFrame {
    /// The clickable regions of the frame, in the order in which a draw pass
    /// registers them: the URL input gives the focus to the URL mode, the
    /// request panel to the request mode.
    pub open spec fn regions(self) -> Seq<Region> {
        seq![
            Region { mode: Mode::Url, area: self.url_area },
            Region { mode: Mode::Request, area: self.request_area },
        ]
    }

    /// Whether the frame fits `area`: title and URL input are rows of `area`,
    /// the request panel and the response pane stand side by side inside
    /// `area`, and the request panel fits its place. Where `area` has five
    /// rows or more, the four parts are those of `home_layout`.
    pub open spec fn fits(self, area: Rect) -> bool {
        &&& is_row_of(self.title_area, area)
        &&& is_row_of(self.url_area, area)
        &&& self.request_area.y == self.response_area.y
        &&& self.request_area.height == self.response_area.height
        &&& self.request_area.within(area)
        &&& self.response_area.within(area)
        &&& self.request.fits(self.request_area)
        &&& area.spec_rows() >= 5 ==> (
            self.title_area,
            self.url_area,
            self.request_area,
            self.response_area,
        ) == home_layout(area)
    }

    /// Whether the frame is a layout of `area` for a root with the focus on
    /// `mode` and the request panel `request`.
    pub open spec fn lays_out(self, area: Rect, mode: Mode, request: RequestView) -> bool {
        &&& self.mode == mode
        &&& self.request.selected == request.tab
        &&& self.fits(area)
    }
}

/// The third row of the screen in an area of five rows or more: all that lies
/// below the title and the URL input.
pub open spec fn panes_row(area: Rect) -> Rect {
    Rect {
        x: area.x,
        y: (area.y + 5) as u16,
        width: area.width,
        height: (area.spec_rows() - 5) as u16,
    }
}

/// The parts of the screen in an area of five rows or more: the title is the
/// first two rows, the URL input the three rows below it, and all below that
/// is halved from left to right, the request panel in the left half, which
/// takes the odd column, and the response pane in the right half.
pub open spec fn home_layout(area: Rect) -> (Rect, Rect, Rect, Rect) {
    let panes = panes_row(area);
    let left = (area.spec_columns() + 1) / 2;
    (
        Rect { x: area.x, y: area.y, width: area.width, height: 2 },
        Rect { x: area.x, y: (area.y + 2) as u16, width: area.width, height: 3 },
        Rect { x: area.x, y: panes.y, width: left as u16, height: panes.height },
        Rect {
            x: (area.x + left) as u16,
            y: panes.y,
            width: (area.spec_columns() - left) as u16,
            height: panes.height,
        },
    )
}

/// What the solver's rows are for the constraints of the screen.
proof fn lemma_home_rows(area: Rect, rows: Seq<Rect>)
    requires
        rows.len() == 3,
        spans_across(Direction::Vertical, area, rows),
        lie_inside(Direction::Vertical, area, rows),
        follows_wishes(Direction::Vertical, home_row_constraints(), area, rows),
    ensures
        is_row_of(rows[0], area),
        is_row_of(rows[1], area),
        is_row_of(rows[2], area),
        area.spec_rows() >= 5 ==> rows[0] == home_layout(area).0 && rows[1] == home_layout(area).1
            && rows[2] == panes_row(area),
{
    let wishes = home_row_constraints();
    let two = seq![Constraint::Length(2), Constraint::Length(3)];
    let one = seq![Constraint::Length(2)];
    let none = Seq::<Constraint>::empty();
    assert(wishes.drop_last() =~= two);
    assert(two.drop_last() =~= one);
    assert(one.drop_last() =~= none);
    assert(lengths(none) == 0 && others(none) == 0);
    assert(one.last() == Constraint::Length(2));
    assert(lengths(one) == 2 && others(one) == 0);
    assert(two.last() == Constraint::Length(3));
    assert(lengths(two) == 5 && others(two) == 0);
    assert(wishes.last() == Constraint::Percentage(100));
    assert(lengths(wishes) == 5 && others(wishes) == 1);
    assert(is_plain(wishes));
    assert(has_one_filler(wishes));
    if area.spec_rows() >= 5 {
        assert(rows[1] == rows[0int + 1]);
        assert(rows[2] == rows[1int + 1]);
        assert(wishes[0] == Constraint::Length(2));
        assert(wishes[1] == Constraint::Length(3));
        assert(size_along(Direction::Vertical, rows[0]) == 2);
        assert(size_along(Direction::Vertical, rows[1]) == 3);
        assert(rows.last() == rows[2]);
    }
}

/// What the solver's columns are for the constraints of the two panes.
proof fn lemma_home_columns(row: Rect, columns: Seq<Rect>)
    requires
        columns.len() == 2,
        spans_across(Direction::Horizontal, row, columns),
        lie_inside(Direction::Horizontal, row, columns),
        follows_wishes(Direction::Horizontal, home_column_constraints(), row, columns),
    ensures
        columns[0].within(row),
        columns[1].within(row),
        columns[0] == (Rect {
            x: row.x,
            y: row.y,
            width: ((row.spec_columns() + 1) / 2) as u16,
            height: row.height,
        }),
        columns[1] == (Rect {
            x: (row.x + (row.spec_columns() + 1) / 2) as u16,
            y: row.y,
            width: (row.spec_columns() - (row.spec_columns() + 1) / 2) as u16,
            height: row.height,
        }),
{
    let wishes = home_column_constraints();
    let one = seq![Constraint::Percentage(50)];
    let none = Seq::<Constraint>::empty();
    assert(wishes.drop_last() =~= one);
    assert(one.drop_last() =~= none);
    assert(shares(none) == 0);
    assert(one.last() == Constraint::Percentage(50));
    assert(shares(one) == 50);
    assert(wishes.last() == Constraint::Percentage(50));
    assert(shares(wishes) == 100);
    assert(wishes.take(1) =~= one);
    assert(wishes.take(2) =~= wishes);
    assert(is_plain(wishes));
    assert(all_shares(wishes));
    assert(columns[1] == columns[0int + 1]);
    let room = row.spec_columns();
    assert(start_along(Direction::Horizontal, columns[0]) + size_along(
        Direction::Horizontal,
        columns[0],
    ) == row.x + (room * shares(wishes.take(0int + 1)) + 50) / 100);
    assert(start_along(Direction::Horizontal, columns[1]) + size_along(
        Direction::Horizontal,
        columns[1],
    ) == row.x + (room * shares(wishes.take(1int + 1)) + 50) / 100);
}

/// What the rows of the screen ask for: two lines for the title, three for
/// the URL input, and all that is left for the panes below.
pub open spec fn home_row_constraints() -> Seq<Constraint> {
    seq![Constraint::Length(2), Constraint::Length(3), Constraint::Percentage(100)]
}

/// What the two panes ask for: half of the width each.
pub open spec fn home_column_constraints() -> Seq<Constraint> {
    seq![Constraint::Percentage(50), Constraint::Percentage(50)]
}

/// The constraints of the rows of the screen, from top to bottom.
pub fn home_rows() -> (constraints: Vec<Constraint>)
    ensures
        constraints@ == home_row_constraints(),
{
    let mut constraints: Vec<Constraint> = Vec::new();
    constraints.push(Constraint::Length(2));
    constraints.push(Constraint::Length(3));
    constraints.push(Constraint::Percentage(100));
    constraints
}

/// The constraints of the two panes, from left to right.
pub fn home_columns() -> (constraints: Vec<Constraint>)
    ensures
        constraints@ == home_column_constraints(),
{
    let mut constraints: Vec<Constraint> = Vec::new();
    constraints.push(Constraint::Percentage(50));
    constraints.push(Constraint::Percentage(50));
    constraints
}

/// The frame of the root from the rows of the screen and the columns of its
/// last row: the first row is the title, the second the URL input; the first
/// column is the request panel, the second the response pane.
pub fn home_frame(rows: &Vec<Rect>, columns: &Vec<Rect>, mode: Mode, request: RequestFrame) -> (frame:
    HomeFrame)
    requires
        rows@.len() == 3,
        columns@.len() == 2,
    ensures
        frame == (HomeFrame {
            title_area: rows@[0],
            url_area: rows@[1],
            request_area: columns@[0],
            response_area: columns@[1],
            mode,
            request,
        }),
{
    HomeFrame {
        title_area: rows[0],
        url_area: rows[1],
        request_area: columns[0],
        response_area: columns[1],
        mode,
        request,
    }
}

/// The root component.
pub struct Home {
    command_tx: Option<UnboundedSender<Action>>,
    config: Config,
    mode: Mode,
    clickable: Regions,
    url_input: UrlInput,
    request: Request,
    response: ResponseState,
    drawn_area: Option<Rect>,
}

/// The root as contracts see it.
pub struct HomeView {
    pub sender: Option<UnboundedSender<Action>>,
    pub config: ConfigView,
    pub mode: Mode,
    /// The clickable regions of the last draw pass.
    pub regions: Seq<Region>,
    pub url_lines: Seq<Seq<char>>,
    pub url_cursor: (usize, usize),
    /// Where the selection in the URL input starts, if anything is selected.
    pub url_selection: Option<(usize, usize)>,
    pub request: RequestView,
    pub response: ResponseStateView,
    /// The area that the last draw pass laid out.
    pub drawn_area: Option<Rect>,
}

impl View for Home {
    type V = HomeView;

    closed spec fn view(&self) -> HomeView {
        HomeView {
            sender: self.command_tx,
            config: self.config@,
            mode: self.mode,
            regions: self.clickable@,
            url_lines: url_input_lines(self.url_input),
            url_cursor: url_input_cursor(self.url_input),
            url_selection: url_input_selection(self.url_input),
            request: self.request@,
            response: self.response@,
            drawn_area: self.drawn_area,
        }
    }
}

/// `UnboundedSender::clone` returns another handle to the same channel.
#[verifier::external_body]
fn another_handle(tx: &UnboundedSender<Action>) -> (handle: UnboundedSender<Action>) {
    tx.clone()
}

/// Whether `key` submits the URL: a press of Enter.
pub open spec fn is_submit(key: KeyEvent) -> bool {
    key.kind == KeyEventKind::Press && key.code == KeyCode::Enter
}

/// The request that is captured when the URL input holds `url_lines`: a GET
/// of the input's text read as one line, without a body.
pub open spec fn captured_request(url_lines: Seq<Seq<char>>) -> RequestSpecView {
    RequestSpecView { method: HttpMethod::GET, url: single_line(url_lines), body: Seq::empty() }
}

impl HomeView {
    /// The root as it starts: the focus on itself, nothing registered,
    /// nothing typed, nothing sent, nothing drawn.
    pub open spec fn initial() -> HomeView {
        HomeView {
            sender: None,
            config: ConfigView { bindings: Seq::empty() },
            mode: Mode::Home,
            regions: Seq::empty(),
            url_lines: seq![Seq::<char>::empty()],
            url_cursor: (0usize, 0usize),
            url_selection: None,
            request: Request::initial(),
            response: ResponseStateView::Idle,
            drawn_area: None,
        }
    }

    /// Whether a key takes the root from `self` to `post` with `follow_up`.
    ///
    /// A key that is bound in the current mode stands for its action and
    /// changes nothing. Otherwise the key goes to the component that has the
    /// focus, and to no other. With the focus on the URL input, a press of
    /// Enter captures the request and asks for it to be sent, a key that
    /// edits the line is handed to the input, and any other key is dropped.
    /// Of an input that is kept as one line, a plain edit makes what
    /// `edited_line` says; what the input makes of any other edit is its own
    /// decision, but for this: no edit adds a line to an input of one line. With the focus on the request panel, the key moves the tab
    /// cursor. With the focus on the root, the key is dropped.
    pub open spec fn after_key(self, key: KeyEvent, post: HomeView, follow_up: Option<ActionView>)
        -> bool {
        match self.config.bound_action(self.mode, key) {
            Some(action) => post == self && follow_up == Some(action),
            None => match self.mode {
                Mode::Url => if is_submit(key) {
                    post == self && follow_up == Some(
                        ActionView::SendRequest(captured_request(self.url_lines)),
                    )
                } else if edit_key(key) is Some {
                    let edit = edit_key(key)->0;
                    &&& follow_up is None
                    &&& post == (HomeView {
                        url_lines: post.url_lines,
                        url_cursor: post.url_cursor,
                        url_selection: post.url_selection,
                        ..self
                    })
                    &&& self.url_lines.len() == 1 ==> post.url_lines.len() == 1
                    &&& is_one_line(self.url_lines, self.url_cursor, self.url_selection)
                        && is_plain_edit(edit, key.modifiers) ==> edits_one_line(
                        self.url_lines,
                        self.url_cursor,
                        edit,
                        post.url_lines,
                        post.url_cursor,
                        post.url_selection,
                    )
                } else {
                    post == self && follow_up is None
                },
                Mode::Request => follow_up is None && post == (HomeView {
                    request: RequestView { tab: tab_after_key(self.request.tab, key), ..self.request },
                    ..self
                }),
                Mode::Home => post == self && follow_up is None,
            },
        }
    }

    /// The root after a pointer event: where a button goes down inside a
    /// clickable region, the focus goes to the mode of the first registered
    /// region that contains the cell; any other event leaves the root as it
    /// is.
    pub open spec fn after_mouse(self, mouse: MouseEvent) -> HomeView {
        if mouse.kind is Down {
            match first_hit(self.regions, mouse.spec_position()) {
                Some(mode) => HomeView { mode, ..self },
                None => self,
            }
        } else {
            self
        }
    }

    /// The root after an action was broadcast: a request that is being sent
    /// makes the response pane wait, the outcome of a call is shown in the
    /// pane, a change of focus is taken over; nothing else changes the root.
    pub open spec fn after_update(self, action: ActionView) -> HomeView {
        match action {
            ActionView::SendRequest(_) => HomeView { response: ResponseStateView::Pending, ..self },
            ActionView::ResponseReceived { status, body, elapsed_ms } => HomeView {
                response: ResponseStateView::Received { status, body, elapsed_ms },
                ..self
            },
            ActionView::RequestFailed { message } => HomeView {
                response: ResponseStateView::Failed { message },
                ..self
            },
            ActionView::FocusChanged(mode) => HomeView { mode, ..self },
            _ => self,
        }
    }

    /// Whether a draw pass over `area` takes the root from `self` to `post`
    /// with `frame`: the frame lays out `area`, the registry holds the
    /// regions of the frame and no others, and nothing else changed.
    pub open spec fn after_draw(self, area: Rect, post: HomeView, frame: HomeFrame) -> bool {
        &&& frame.lays_out(area, self.mode, self.request)
        &&& post == (HomeView { regions: frame.regions(), drawn_area: Some(area), ..self })
    }
}

/// With the focus on the URL input, a press of Enter that no binding answers
/// asks for the captured request to be sent and inserts nothing: the request's
/// URL is the text of the input read as one line, which holds no character
/// that ends a line, whatever was typed or pasted before.
pub proof fn lemma_submit_captures_one_line(
    pre: HomeView,
    key: KeyEvent,
    post: HomeView,
    follow_up: Option<ActionView>,
)
    requires
        pre.mode == Mode::Url,
        is_submit(key),
        pre.config.bound_action(pre.mode, key) is None,
        pre.after_key(key, post, follow_up),
    ensures
        post == pre,
        follow_up == Some(ActionView::SendRequest(captured_request(pre.url_lines))),
        forall|i: int|
            0 <= i < captured_request(pre.url_lines).url.len() ==> !is_line_break(
                #[trigger] captured_request(pre.url_lines).url[i],
            ),
{
    lemma_single_line_has_no_line_break(pre.url_lines);
}

/// A press of the character `c` with no modifier held.
pub open spec fn typed(c: char) -> KeyEvent {
    KeyEvent {
        code: KeyCode::Char(c),
        modifiers: crate::event::KeyModifiers { shift: false, control: false, alt: false },
        kind: KeyEventKind::Press,
    }
}

/// Whether the URL input holds `text` as its only line, with the cursor
/// behind it and nothing selected, while it has the focus.
pub open spec fn holds_typed(home: HomeView, text: Seq<char>) -> bool {
    &&& home.mode == Mode::Url
    &&& home.url_lines == seq![text]
    &&& home.url_cursor.0 == 0
    &&& home.url_cursor.1 == text.len()
    &&& home.url_selection is None
}

/// With the focus on the URL input, a plain edit that no binding answers
/// keeps an input that is kept as one line as one line, edited as
/// `edited_line` says; focus, request panel, response pane and registry stay
/// as they are, and nothing is asked of the rest of the application.
pub proof fn lemma_plain_edit_in_url_mode(
    pre: HomeView,
    key: KeyEvent,
    post: HomeView,
    follow_up: Option<ActionView>,
)
    requires
        pre.mode == Mode::Url,
        pre.config.bound_action(pre.mode, key) is None,
        !is_submit(key),
        edit_key(key) is Some,
        is_plain_edit(edit_key(key)->0, key.modifiers),
        is_one_line(pre.url_lines, pre.url_cursor, pre.url_selection),
        pre.after_key(key, post, follow_up),
    ensures
        follow_up is None,
        is_one_line(post.url_lines, post.url_cursor, post.url_selection),
        edits_one_line(
            pre.url_lines,
            pre.url_cursor,
            edit_key(key)->0,
            post.url_lines,
            post.url_cursor,
            post.url_selection,
        ),
        post == (HomeView {
            url_lines: post.url_lines,
            url_cursor: post.url_cursor,
            url_selection: post.url_selection,
            ..pre
        }),
{
    lemma_plain_edit_keeps_one_line(
        pre.url_lines,
        pre.url_cursor,
        edit_key(key)->0,
        post.url_lines,
        post.url_cursor,
        post.url_selection,
    );
}

/// No key adds a line to the URL input: an input of one line has one line
/// after any key, whatever the focus and whatever the key is bound to.
pub proof fn lemma_key_keeps_one_line(
    pre: HomeView,
    key: KeyEvent,
    post: HomeView,
    follow_up: Option<ActionView>,
)
    requires
        pre.url_lines.len() == 1,
        pre.after_key(key, post, follow_up),
    ensures
        post.url_lines.len() == 1,
{
}

/// From the start on, whatever keys reach the root, the URL input holds one
/// line, and what is captured from it has no character that ends a line.
pub proof fn lemma_keys_keep_one_line(
    states: Seq<HomeView>,
    keys: Seq<KeyEvent>,
    follow_ups: Seq<Option<ActionView>>,
    n: int,
)
    requires
        states.len() == keys.len() + 1,
        follow_ups.len() == keys.len(),
        states[0] == HomeView::initial(),
        forall|i: int|
            0 <= i < keys.len() ==> (#[trigger] states[i]).after_key(
                keys[i],
                states[i + 1],
                follow_ups[i],
            ),
        0 <= n <= keys.len(),
    ensures
        states[n].url_lines.len() == 1,
        forall|i: int|
            0 <= i < captured_request(states[n].url_lines).url.len() ==> !is_line_break(
                #[trigger] captured_request(states[n].url_lines).url[i],
            ),
    decreases n,
{
    if n > 0 {
        lemma_keys_keep_one_line(states, keys, follow_ups, n - 1);
        lemma_key_keeps_one_line(states[n - 1], keys[n - 1], states[n], follow_ups[n - 1]);
    }
    lemma_single_line_has_no_line_break(states[n].url_lines);
}

/// A character that ends no line, typed behind the text of the URL input
/// while no binding answers it, is appended to the text.
pub proof fn lemma_typed_character_is_appended(
    pre: HomeView,
    text: Seq<char>,
    c: char,
    post: HomeView,
    follow_up: Option<ActionView>,
)
    requires
        holds_typed(pre, text),
        !is_line_break(c),
        pre.config.bound_action(pre.mode, typed(c)) is None,
        pre.after_key(typed(c), post, follow_up),
    ensures
        follow_up is None,
        holds_typed(post, text.push(c)),
        post.config == pre.config,
        post.request == pre.request,
{
    assert(edit_key(typed(c)) == Some(EditKey::Char(c)));
    assert(text.insert(text.len() as int, c) =~= text.push(c));
}

/// Typing a text without line breaks into the empty URL input, character by
/// character, and pressing Enter, while no binding answers these keys, asks
/// for exactly one request to be sent: a GET of the typed text.
pub proof fn lemma_typed_url_is_sent(
    states: Seq<HomeView>,
    text: Seq<char>,
    enter: KeyEvent,
    last: HomeView,
    follow_up: Option<ActionView>,
)
    requires
        states.len() == text.len() + 1,
        holds_typed(states[0], Seq::empty()),
        forall|i: int| 0 <= i < text.len() ==> !is_line_break(#[trigger] text[i]),
        forall|i: int|
            0 <= i < text.len() ==> (#[trigger] states[i]).config.bound_action(
                Mode::Url,
                typed(text[i]),
            ) is None && states[i].after_key(typed(text[i]), states[i + 1], None),
        is_submit(enter),
        states.last().config.bound_action(Mode::Url, enter) is None,
        states.last().after_key(enter, last, follow_up),
    ensures
        follow_up == Some(
            ActionView::SendRequest(
                RequestSpecView { method: HttpMethod::GET, url: text, body: Seq::empty() },
            ),
        ),
        last == states.last(),
{
    lemma_typing(states, text, text.len() as int);
    assert(text.take(text.len() as int) =~= text);
    lemma_single_line_of_one_line(text);
}

proof fn lemma_typing(states: Seq<HomeView>, text: Seq<char>, n: int)
    requires
        states.len() == text.len() + 1,
        holds_typed(states[0], Seq::empty()),
        forall|i: int| 0 <= i < text.len() ==> !is_line_break(#[trigger] text[i]),
        forall|i: int|
            0 <= i < text.len() ==> (#[trigger] states[i]).config.bound_action(
                Mode::Url,
                typed(text[i]),
            ) is None && states[i].after_key(typed(text[i]), states[i + 1], None),
        0 <= n <= text.len(),
    ensures
        holds_typed(states[n], text.take(n)),
    decreases n,
{
    if n == 0 {
        assert(text.take(0) =~= Seq::<char>::empty());
    } else {
        lemma_typing(states, text, n - 1);
        let before = states[n - 1];
        assert(before.config.bound_action(Mode::Url, typed(text[n - 1])) is None);
        lemma_typed_character_is_appended(
            before,
            text.take(n - 1),
            text[n - 1],
            states[n],
            None,
        );
        assert(text.take(n - 1).push(text[n - 1]) =~= text.take(n));
    }
}

/// A key that is not bound while the focus is on the root asks nothing and
/// changes nothing.
pub proof fn lemma_unbound_key_at_home_is_dropped(
    pre: HomeView,
    key: KeyEvent,
    post: HomeView,
    follow_up: Option<ActionView>,
)
    requires
        pre.mode == Mode::Home,
        pre.config.bound_action(pre.mode, key) is None,
        pre.after_key(key, post, follow_up),
    ensures
        post == pre,
        follow_up is None,
{
}

impl Default for Home {
    fn default() -> (home: Home)
        ensures
            home@ == HomeView::initial(),
    {
        Home::new()
    }
}

impl Home {
    pub fn new() -> (home: Home)
        ensures
            home@ == HomeView::initial(),
    {
        let home = Home {
            command_tx: None,
            config: Config::new(),
            mode: Mode::Home,
            clickable: Regions::new(),
            url_input: UrlInput::new(),
            request: Request::new(),
            response: ResponseState::Idle,
            drawn_area: None,
        };
        home
    }

    /// The mode that has the focus.
    pub fn mode(&self) -> (mode: Mode)
        ensures
            mode == self@.mode,
    {
        self.mode
    }

    /// The clickable regions of the last draw pass.
    pub fn regions(&self) -> (regions: &Regions)
        ensures
            regions@ == self@.regions,
    {
        &self.clickable
    }

    /// The URL input.
    pub fn url_input(&self) -> (input: &UrlInput)
        ensures
            url_input_lines(*input) == self@.url_lines,
            url_input_cursor(*input) == self@.url_cursor,
            url_input_selection(*input) == self@.url_selection,
    {
        &self.url_input
    }

    /// The request panel.
    pub fn request(&self) -> (request: &Request)
        ensures
            request@ == self@.request,
    {
        &self.request
    }

    /// What the response pane shows.
    pub fn response(&self) -> (response: &ResponseState)
        ensures
            response@ == self@.response,
    {
        &self.response
    }

    /// The area that the last draw pass laid out.
    pub fn drawn_area(&self) -> (area: Option<Rect>)
        ensures
            area == self@.drawn_area,
    {
        self.drawn_area
    }

    /// The handle that the root was given last.
    pub fn action_sender(&self) -> (tx: &Option<UnboundedSender<Action>>)
        ensures
            *tx == self@.sender,
    {
        &self.command_tx
    }

    /// The configuration that the root was given last.
    pub fn config(&self) -> (config: &Config)
        ensures
            config@ == self@.config,
    {
        &self.config
    }

    /// The request that the URL input holds at this moment.
    pub fn capture_request(&self) -> (request: RequestSpec)
        ensures
            request@ == captured_request(self@.url_lines),
            forall|i: int|
                0 <= i < request@.url.len() ==> request@.url[i] != '\n' && request@.url[i] != '\r',
    {
        let url = self.url_input.text();
        RequestSpec { method: HttpMethod::GET, url, body: String::new() }
    }

    /// Registers the regions of a layout: the registry is emptied, then the
    /// URL input and the request panel are registered, in this order.
    pub fn record_regions(&mut self, url_area: Rect, request_area: Rect)
        ensures
            final(self)@ == (HomeView {
                regions: seq![
                    Region { mode: Mode::Url, area: url_area },
                    Region { mode: Mode::Request, area: request_area },
                ],
                ..old(self)@
            }),
    {
        self.clickable.clear();
        self.clickable.insert(Mode::Url, url_area);
        self.clickable.insert(Mode::Request, request_area);
        assert(self.clickable@ =~= seq![
            Region { mode: Mode::Url, area: url_area },
            Region { mode: Mode::Request, area: request_area },
        ]);
    }
}

impl Component for Home {
    type Frame = HomeFrame;

    /// The root keeps the handle and gives the request panel a handle to the
    /// same channel.
    fn register_action_handler(&mut self, tx: UnboundedSender<Action>)
        ensures
            final(self)@.sender == Some(tx),
            final(self)@.request.sender is Some,
            final(self)@ == (HomeView {
                sender: final(self)@.sender,
                request: RequestView { sender: final(self)@.request.sender, ..old(self)@.request },
                ..old(self)@
            }),
    {
        self.request.register_action_handler(another_handle(&tx));
        self.command_tx = Some(tx);
    }

    /// The root keeps the configuration and gives the request panel a copy.
    fn register_config_handler(&mut self, config: Config)
        ensures
            final(self)@ == (HomeView {
                config: config@,
                request: RequestView { config: config@, ..old(self)@.request },
                ..old(self)@
            }),
    {
        self.request.register_config_handler(config.clone());
        self.config = config;
    }

    fn handle_key_event(&mut self, key: KeyEvent) -> (follow_up: Option<Action>)
        ensures
            old(self)@.after_key(
                key,
                final(self)@,
                match follow_up {
                    Some(action) => Some(action@),
                    None => None,
                },
            ),
    {
        match self.config.lookup(self.mode, key) {
            Some(action) => {
                return Some(action);
            },
            None => {},
        }
        match self.mode {
            Mode::Url => {
                if key.kind == KeyEventKind::Press && key.code == KeyCode::Enter {
                    Some(Action::SendRequest(self.capture_request()))
                } else {
                    self.url_input.handle_key(key);
                    None
                }
            },
            Mode::Request => self.request.handle_key_event(key),
            Mode::Home => None,
        }
    }

    fn handle_mouse_event(&mut self, mouse: MouseEvent) -> (follow_up: Option<Action>)
        ensures
            follow_up is None,
            final(self)@ == old(self)@.after_mouse(mouse),
    {
        if mouse.is_down() {
            match self.clickable.hit(mouse.position()) {
                Some(mode) => {
                    if mode != self.mode {
                        self.mode = mode;
                        return None;
                    }
                },
                None => {},
            }
        }
        match self.mode {
            Mode::Request => self.request.handle_mouse_event(mouse),
            _ => None,
        }
    }

    fn update(&mut self, action: Action) -> (follow_up: Option<Action>)
        ensures
            follow_up is None,
            final(self)@ == old(self)@.after_update(action@),
    {
        match action {
            Action::SendRequest(request) => {
                self.response = ResponseState::Pending;
                self.request.update(Action::SendRequest(request))
            },
            Action::ResponseReceived { status, body, elapsed_ms } => {
                self.response = ResponseState::Received { status, body, elapsed_ms };
                None
            },
            Action::RequestFailed { message } => {
                self.response = ResponseState::Failed { message };
                None
            },
            Action::FocusChanged(mode) => {
                self.mode = mode;
                self.request.update(Action::FocusChanged(mode))
            },
            other => self.request.update(other),
        }
    }

    /// Lays the root out in `area` and registers the clickable regions of
    /// this layout in place of those of the last one. The rows of `area` are
    /// split by `home_rows`, the last row into columns by `home_columns`, and
    /// `home_frame` says which part is which. In an area of five rows or
    /// more the parts are those of `home_layout`; in a smaller one, where
    /// title and URL input compete for the room, the frame still fits `area`.
    fn draw(&mut self, area: Rect) -> (frame: HomeFrame)
        ensures
            old(self)@.after_draw(area, final(self)@, frame),
    {
        let row_constraints = home_rows();
        let rows = split(Direction::Vertical, &row_constraints, area);
        let column_constraints = home_columns();
        let columns = split(Direction::Horizontal, &column_constraints, rows[2]);
        proof {
            lemma_home_rows(area, rows@);
            lemma_home_columns(rows@[2], columns@);
        }
        let request = self.request.draw(columns[0]);
        let frame = home_frame(&rows, &columns, self.mode, request);
        self.record_regions(frame.url_area, frame.request_area);
        self.drawn_area = Some(area);
        frame
    }
}

} // verus!
