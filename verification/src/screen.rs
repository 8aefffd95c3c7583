use crate::text::{
    blank, char_is_whitespace, chars_of, concat2, is_blank, owned_text, string_of, trim_end,
};
use vstd::prelude::*;
use vstd::string::StringExecFns;

verus! {

/// What the input line is for.
#[derive(Clone, Copy, Debug, PartialEq, Eq)]
pub enum InputMode {
    Text,
    Command,
}

/// Which pane the scroll keys move.
#[derive(Clone, Copy, Debug, PartialEq, Eq)]
pub enum OutputFocus {
    Context,
    Answer,
}

/// What is asked of the caller when the input line is sent off.
#[derive(Clone, Debug)]
pub enum Submission {
    /// Answer the question.
    Ask(String),
    /// Run the command.
    Run(String),
}

/// What came back from work done in the background.
#[derive(Debug)]
pub enum Response {
    Rag(Result<(String, String), String>),
    Index(Result<(), String>),
    Command(String),
}

/// The state of the screen: the input line, the two panes and what they show.
#[derive(Clone, Debug)]
pub struct App {
    pub input: String,
    pub cursor: usize,
    pub last_submit: Option<String>,
    pub last_command_output: Option<String>,
    pub rag_context: Option<String>,
    pub rag_answer: Option<String>,
    pub input_mode: InputMode,
    pub output_focus: OutputFocus,
    pub context_scroll: usize,
    pub context_content_len: usize,
    pub context_view_height: usize,
    pub context_auto_scroll: bool,
    pub answer_scroll: usize,
    pub answer_content_len: usize,
    pub answer_view_height: usize,
    pub answer_auto_scroll: bool,
    pub is_loading: bool,
    pub spinner_idx: usize,
}

/// `a - b`, or zero where `b` is the larger.
pub open spec fn minus(a: nat, b: nat) -> nat {
    if a >= b {
        (a - b) as nat
    } else {
        0
    }
}

/// The smaller of two numbers.
pub open spec fn least(a: nat, b: nat) -> nat {
    if a <= b {
        a
    } else {
        b
    }
}

/// Where the part of the input that is shown starts: the cursor stands in
/// the middle of the window, and the window does not reach beyond the end.
pub open spec fn window_start(len: nat, cursor: nat, width: nat) -> nat {
    let c = least(cursor, len);
    let start = minus(c, width / 2);
    if start + width > len {
        minus(len, width)
    } else {
        start
    }
}

/// The part of the input that fits a line of `width` characters.
pub open spec fn visible_input(input: Seq<char>, cursor: nat, width: nat) -> Seq<char> {
    if width == 0 {
        Seq::empty()
    } else if input.len() <= width {
        input
    } else {
        let start = window_start(input.len(), cursor, width);
        input.subrange(start as int, (start + width) as int)
    }
}

/// The column of the cursor within the part of the input that is shown.
pub open spec fn cursor_column(len: nat, cursor: nat, width: nat) -> nat {
    if width == 0 {
        0
    } else if len <= width {
        least(cursor, len)
    } else {
        least(minus(least(cursor, len), window_start(len, cursor, width)), width)
    }
}

/// How many line feeds `s` holds.
pub open spec fn line_feeds(s: Seq<char>) -> nat
    decreases s.len(),
{
    if s.len() == 0 {
        0
    } else {
        line_feeds(s.drop_last()) + if s.last() == '\n' {
            1nat
        } else {
            0nat
        }
    }
}

/// How many lines a text takes: one for each line feed, one more for what
/// follows the last, and one at least.
pub open spec fn lines_of(s: Seq<char>) -> nat {
    let n = line_feeds(s) + if s.len() > 0 && s.last() != '\n' {
        1nat
    } else {
        0nat
    };
    if n == 0 {
        1
    } else {
        n
    }
}

/// The part of the input that fits a line of `max_width` characters.
pub fn truncate_input(input: &str, cursor: usize, max_width: usize) -> (r: String)
    ensures
        r@ == visible_input(input@, cursor as nat, max_width as nat),
{
    if max_width == 0 {
        return String::new();
    }
    let v = chars_of(input);
    let len: usize = v.len();
    if len <= max_width {
        return String::from_str(input);
    }
    let c: usize = if cursor <= len {
        cursor
    } else {
        len
    };
    let half: usize = max_width / 2;
    let mut start: usize = if c >= half {
        c - half
    } else {
        0
    };
    if start > len - max_width {
        start = len - max_width;
    }
    string_of(&v, start, start + max_width)
}

/// The column of the cursor within the part of the input that is shown.
pub fn cursor_x_in_view(input: &str, cursor: usize, max_width: usize) -> (r: usize)
    ensures
        r == cursor_column(input@.len(), cursor as nat, max_width as nat),
{
    if max_width == 0 {
        return 0;
    }
    let len: usize = input.unicode_len();
    let c: usize = if cursor <= len {
        cursor
    } else {
        len
    };
    if len <= max_width {
        return c;
    }
    let half: usize = max_width / 2;
    let mut start: usize = if c >= half {
        c - half
    } else {
        0
    };
    if start > len - max_width {
        start = len - max_width;
    }
    let column: usize = if c >= start {
        c - start
    } else {
        0
    };
    if column <= max_width {
        column
    } else {
        max_width
    }
}

/// How many lines a text takes.
pub fn line_count(text: &str) -> (r: usize)
    ensures
        r == lines_of(text@),
{
    let v = chars_of(text);
    let mut feeds: usize = 0;
    let mut i: usize = 0;
    while i < v.len()
        invariant
            i <= v.len(),
            feeds == line_feeds(v@.take(i as int)),
            feeds <= i,
        decreases v.len() - i,
    {
        assert(v@.take(i + 1).drop_last() =~= v@.take(i as int));
        if v[i] == '\n' {
            feeds = feeds + 1;
        }
        i = i + 1;
    }
    assert(v@.take(v.len() as int) =~= v@);
    let open_line: bool = v.len() > 0 && v[v.len() - 1] != '\n';
    if open_line {
        assert(feeds < v.len()) by {
            lemma_line_feeds_bound(v@.drop_last());
        }
        feeds + 1
    } else if feeds == 0 {
        1
    } else {
        feeds
    }
}

proof fn lemma_line_feeds_bound(s: Seq<char>)
    ensures
        line_feeds(s) <= s.len(),
    decreases s.len(),
{
    if s.len() > 0 {
        lemma_line_feeds_bound(s.drop_last());
    }
}

impl App {
    /// Whether the cursor stands within the input and the spinner on one of
    /// its four frames.
    pub open spec fn well_formed(self) -> bool {
        self.cursor <= self.input@.len() && self.spinner_idx < 4
    }

    /// The screen at the start: an empty input line for questions, the answer
    /// pane in focus.
    pub fn new() -> (r: App)
        ensures
            r.well_formed(),
            r.input@.len() == 0,
            r.cursor == 0,
            r.input_mode == InputMode::Text,
            r.output_focus == OutputFocus::Answer,
            r.last_submit is None && r.last_command_output is None && r.rag_context is None
                && r.rag_answer is None,
            r.context_scroll == 0 && r.context_content_len == 0 && r.context_view_height == 0
                && !r.context_auto_scroll,
            r.answer_scroll == 0 && r.answer_content_len == 0 && r.answer_view_height == 0
                && !r.answer_auto_scroll,
            !r.is_loading,
            r.spinner_idx == 0,
    {
        App {
            input: String::new(),
            cursor: 0,
            last_submit: None,
            last_command_output: None,
            rag_context: None,
            rag_answer: None,
            input_mode: InputMode::Text,
            output_focus: OutputFocus::Answer,
            context_scroll: 0,
            context_content_len: 0,
            context_view_height: 0,
            context_auto_scroll: false,
            answer_scroll: 0,
            answer_content_len: 0,
            answer_view_height: 0,
            answer_auto_scroll: false,
            is_loading: false,
            spinner_idx: 0,
        }
    }

    /// Puts `c` into the input where the cursor stands, and the cursor behind it.
    pub fn insert_char(&mut self, c: char)
        requires
            old(self).well_formed(),
            old(self).input@.len() < usize::MAX,
        ensures
            final(self).well_formed(),
            final(self).input@ == old(self).input@.insert(old(self).cursor as int, c),
            final(self).cursor == old(self).cursor + 1,
            *final(self) == (App {
                input: final(self).input,
                cursor: final(self).cursor,
                ..*old(self)
            }),
    {
        let mut v = chars_of(self.input.as_str());
        v.insert(self.cursor, c);
        self.input = string_of(&v, 0, v.len());
        self.cursor = self.cursor + 1;
    }

    /// Takes the character before the cursor out of the input, if there is one.
    pub fn delete_char(&mut self)
        requires
            old(self).well_formed(),
        ensures
            final(self).well_formed(),
            old(self).cursor == 0 ==> final(self).input@ == old(self).input@ && final(self).cursor
                == 0,
            old(self).cursor > 0 ==> final(self).input@ == old(self).input@.remove(
                old(self).cursor - 1,
            ) && final(self).cursor == old(self).cursor - 1,
            *final(self) == (App {
                input: final(self).input,
                cursor: final(self).cursor,
                ..*old(self)
            }),
    {
        if self.cursor == 0 {
            return ;
        }
        self.cursor = self.cursor - 1;
        let mut v = chars_of(self.input.as_str());
        v.remove(self.cursor);
        self.input = string_of(&v, 0, v.len());
    }

    /// Moves the cursor one to the left, unless it stands at the start.
    pub fn move_left(&mut self)
        ensures
            final(self).cursor == minus(old(self).cursor as nat, 1),
            *final(self) == (App { cursor: final(self).cursor, ..*old(self) }),
    {
        if self.cursor > 0 {
            self.cursor = self.cursor - 1;
        }
    }

    /// Moves the cursor one to the right, unless it stands at the end.
    pub fn move_right(&mut self)
        ensures
            final(self).cursor == if old(self).cursor < old(self).input@.len() {
                old(self).cursor + 1
            } else {
                old(self).cursor as int
            },
            *final(self) == (App { cursor: final(self).cursor, ..*old(self) }),
    {
        if self.cursor < self.input.as_str().unicode_len() {
            self.cursor = self.cursor + 1;
        }
    }

    /// Scrolls the pane in focus up by `by` lines, to the top at most.
    pub fn scroll_up(&mut self, by: usize)
        ensures
            *final(self) == (App {
                context_scroll: final(self).context_scroll,
                answer_scroll: final(self).answer_scroll,
                ..*old(self)
            }),
            old(self).output_focus == OutputFocus::Context ==> final(self).context_scroll == minus(
                old(self).context_scroll as nat,
                by as nat,
            ) && final(self).answer_scroll == old(self).answer_scroll,
            old(self).output_focus == OutputFocus::Answer ==> final(self).answer_scroll == minus(
                old(self).answer_scroll as nat,
                by as nat,
            ) && final(self).context_scroll == old(self).context_scroll,
    {
        match self.output_focus {
            OutputFocus::Context => {
                self.context_scroll = if self.context_scroll >= by {
                    self.context_scroll - by
                } else {
                    0
                };
            },
            OutputFocus::Answer => {
                self.answer_scroll = if self.answer_scroll >= by {
                    self.answer_scroll - by
                } else {
                    0
                };
            },
        }
    }

    /// Scrolls the pane in focus down by `by` lines, as far as its last page
    /// at most.
    pub fn scroll_down(&mut self, by: usize)
        ensures
            *final(self) == (App {
                context_scroll: final(self).context_scroll,
                answer_scroll: final(self).answer_scroll,
                ..*old(self)
            }),
            old(self).output_focus == OutputFocus::Context ==> final(self).context_scroll == least(
                old(self).context_scroll as nat + by as nat,
                minus(
                    old(self).context_content_len as nat,
                    old(self).context_view_height as nat,
                ),
            ) && final(self).answer_scroll == old(self).answer_scroll,
            old(self).output_focus == OutputFocus::Answer ==> final(self).answer_scroll == least(
                old(self).answer_scroll as nat + by as nat,
                minus(old(self).answer_content_len as nat, old(self).answer_view_height as nat),
            ) && final(self).context_scroll == old(self).context_scroll,
    {
        match self.output_focus {
            OutputFocus::Context => {
                let last = last_page(self.context_content_len, self.context_view_height);
                self.context_scroll = bounded_sum(self.context_scroll, by, last);
            },
            OutputFocus::Answer => {
                let last = last_page(self.answer_content_len, self.answer_view_height);
                self.answer_scroll = bounded_sum(self.answer_scroll, by, last);
            },
        }
    }

    /// Scrolls the pane in focus to its top.
    pub fn scroll_to_start(&mut self)
        ensures
            *final(self) == (App {
                context_scroll: final(self).context_scroll,
                answer_scroll: final(self).answer_scroll,
                ..*old(self)
            }),
            old(self).output_focus == OutputFocus::Context ==> final(self).context_scroll == 0
                && final(self).answer_scroll == old(self).answer_scroll,
            old(self).output_focus == OutputFocus::Answer ==> final(self).answer_scroll == 0
                && final(self).context_scroll == old(self).context_scroll,
    {
        match self.output_focus {
            OutputFocus::Context => self.context_scroll = 0,
            OutputFocus::Answer => self.answer_scroll = 0,
        }
    }

    /// Scrolls the pane in focus to its last page.
    pub fn scroll_to_end(&mut self)
        ensures
            *final(self) == (App {
                context_scroll: final(self).context_scroll,
                answer_scroll: final(self).answer_scroll,
                ..*old(self)
            }),
            old(self).output_focus == OutputFocus::Context ==> final(self).context_scroll == minus(
                old(self).context_content_len as nat,
                old(self).context_view_height as nat,
            ) && final(self).answer_scroll == old(self).answer_scroll,
            old(self).output_focus == OutputFocus::Answer ==> final(self).answer_scroll == minus(
                old(self).answer_content_len as nat,
                old(self).answer_view_height as nat,
            ) && final(self).context_scroll == old(self).context_scroll,
    {
        match self.output_focus {
            OutputFocus::Context => {
                self.context_scroll = last_page(self.context_content_len, self.context_view_height);
            },
            OutputFocus::Answer => {
                self.answer_scroll = last_page(self.answer_content_len, self.answer_view_height);
            },
        }
    }

    /// The height of the pane in focus.
    pub fn focused_view_height(&self) -> (r: usize)
        ensures
            r == match self.output_focus {
                OutputFocus::Context => self.context_view_height,
                OutputFocus::Answer => self.answer_view_height,
            },
    {
        match self.output_focus {
            OutputFocus::Context => self.context_view_height,
            OutputFocus::Answer => self.answer_view_height,
        }
    }
}

fn last_page(content_len: usize, view_height: usize) -> (r: usize)
    ensures
        r == minus(content_len as nat, view_height as nat),
{
    if content_len >= view_height {
        content_len - view_height
    } else {
        0
    }
}

fn bounded_sum(a: usize, b: usize, bound: usize) -> (r: usize)
    ensures
        r == least(a as nat + b as nat, bound as nat),
{
    if a >= bound || b >= bound - a {
        bound
    } else {
        a + b
    }
}

/// The model of what a submission asks for.
pub open spec fn submitted(r: Option<Submission>) -> Option<(InputMode, Seq<char>)> {
    match r {
        Some(Submission::Ask(q)) => Some((InputMode::Text, q@)),
        Some(Submission::Run(c)) => Some((InputMode::Command, c@)),
        None => None,
    }
}

/// Where a pane stands after its content was laid out: on its last page
/// where it follows its content, else where it stood, on the last page at most.
pub open spec fn settled_scroll(scroll: nat, follow: bool, content_len: nat, view_height: nat) -> nat {
    if follow {
        minus(content_len, view_height)
    } else {
        least(scroll, minus(content_len, view_height))
    }
}

/// What a command printed, as it is shown: its output, then its error output
/// on a line of its own, without white space at the end; a note where there
/// is nothing to show.
pub open spec fn shown_output(stdout: Seq<char>, stderr: Seq<char>) -> Seq<char> {
    let text = if stdout.len() > 0 && stderr.len() > 0 {
        stdout + "\n"@ + stderr
    } else {
        stdout + stderr
    };
    if is_blank(text) {
        "(command produced no output)"@
    } else {
        trim_end(text)
    }
}

/// What a command printed, as it is shown.
pub fn command_output(stdout: &str, stderr: &str) -> (r: String)
    ensures
        r@ == shown_output(stdout@, stderr@),
{
    let mut text = String::from_str(stdout);
    if stdout.unicode_len() > 0 && stderr.unicode_len() > 0 {
        text.append("\n");
    }
    text.append(stderr);
    let v = chars_of(text.as_str());
    assert(v@.subrange(0, v.len() as int) =~= v@);
    if blank(text.as_str()) {
        return String::from_str("(command produced no output)");
    }
    let mut j: usize = v.len();
    while j > 0 && char_is_whitespace(v[j - 1])
        invariant
            j <= v.len(),
            trim_end(v@) == trim_end(v@.subrange(0, j as int)),
        decreases j,
    {
        assert(v@.subrange(0, j as int).drop_last() =~= v@.subrange(0, j - 1));
        j = j - 1;
    }
    string_of(&v, 0, j)
}

impl App {
    /// Sends the input line off, unless it is blank or work is under way: the
    /// line is remembered and cleared, and the caller is told what to do with it.
    pub fn submit(&mut self) -> (r: Option<Submission>)
        ensures
            is_blank(old(self).input@) || old(self).is_loading ==> r is None && *final(self) == *old(
                self,
            ),
            !is_blank(old(self).input@) && !old(self).is_loading ==> {
                &&& submitted(r) == Some((old(self).input_mode, old(self).input@))
                &&& owned_text(final(self).last_submit) == Some(old(self).input@)
                &&& final(self).input@.len() == 0
                &&& final(self).cursor == 0
                &&& final(self).is_loading
                &&& final(self).answer_auto_scroll
                &&& *final(self) == (App {
                    input: final(self).input,
                    cursor: final(self).cursor,
                    last_submit: final(self).last_submit,
                    is_loading: final(self).is_loading,
                    answer_auto_scroll: final(self).answer_auto_scroll,
                    context_auto_scroll: final(self).context_auto_scroll,
                    rag_context: final(self).rag_context,
                    rag_answer: final(self).rag_answer,
                    ..*old(self)
                })
                &&& old(self).input_mode == InputMode::Text ==> final(self).context_auto_scroll
                    && final(self).rag_context is None && final(self).rag_answer is None
                &&& old(self).input_mode == InputMode::Command ==> final(self).context_auto_scroll
                    == old(self).context_auto_scroll && final(self).rag_context == old(
                    self,
                ).rag_context && final(self).rag_answer == old(self).rag_answer
            },
    {
        if blank(self.input.as_str()) || self.is_loading {
            return None;
        }
        let prompt = self.input.clone();
        self.last_submit = Some(prompt.clone());
        self.is_loading = true;
        self.answer_auto_scroll = true;
        self.input = String::new();
        self.cursor = 0;
        match self.input_mode {
            InputMode::Text => {
                self.context_auto_scroll = true;
                self.rag_context = None;
                self.rag_answer = None;
                Some(Submission::Ask(prompt))
            },
            InputMode::Command => Some(Submission::Run(prompt)),
        }
    }

    /// Starts the indexing of the corpus, unless work is under way; returns
    /// whether it starts.
    pub fn index_now(&mut self) -> (r: bool)
        ensures
            r == !old(self).is_loading,
            !r ==> *final(self) == *old(self),
            r ==> {
                &&& final(self).is_loading
                &&& final(self).context_auto_scroll
                &&& final(self).answer_auto_scroll
                &&& owned_text(final(self).rag_context) == Some("Indexing..."@)
                &&& owned_text(final(self).rag_answer) == Some(
                    "Building embeddings and updating Qdrant."@,
                )
                &&& *final(self) == (App {
                    is_loading: final(self).is_loading,
                    context_auto_scroll: final(self).context_auto_scroll,
                    answer_auto_scroll: final(self).answer_auto_scroll,
                    rag_context: final(self).rag_context,
                    rag_answer: final(self).rag_answer,
                    ..*old(self)
                })
            },
    {
        if self.is_loading {
            return false;
        }
        self.is_loading = true;
        self.context_auto_scroll = true;
        self.answer_auto_scroll = true;
        self.rag_context = Some(String::from_str("Indexing..."));
        self.rag_answer = Some(String::from_str("Building embeddings and updating Qdrant."));
        true
    }

    /// Takes in what the work in the background came to: the work is over,
    /// the panes show the outcome and follow their content.
    pub fn receive(&mut self, response: Response)
        ensures
            !final(self).is_loading,
            final(self).context_auto_scroll && final(self).answer_auto_scroll,
            *final(self) == (App {
                is_loading: final(self).is_loading,
                context_auto_scroll: final(self).context_auto_scroll,
                answer_auto_scroll: final(self).answer_auto_scroll,
                rag_context: final(self).rag_context,
                rag_answer: final(self).rag_answer,
                last_command_output: final(self).last_command_output,
                ..*old(self)
            }),
            match response {
                Response::Rag(Ok(found)) => owned_text(final(self).rag_context) == Some(found.0@)
                    && owned_text(final(self).rag_answer) == Some(found.1@) && final(self).last_command_output
                    == old(self).last_command_output,
                Response::Rag(Err(e)) => owned_text(final(self).rag_context) == Some(
                    Seq::<char>::empty(),
                ) && owned_text(final(self).rag_answer) == Some("Error: "@ + e@) && final(self).last_command_output
                    == old(self).last_command_output,
                Response::Index(Ok(_)) => owned_text(final(self).rag_context) == Some(
                    "Indexing complete."@,
                ) && owned_text(final(self).rag_answer) == Some("You can now run a RAG query."@)
                    && final(self).last_command_output == old(self).last_command_output,
                Response::Index(Err(e)) => owned_text(final(self).rag_context) == Some(
                    "Indexing failed."@,
                ) && owned_text(final(self).rag_answer) == Some("Error: "@ + e@) && final(self).last_command_output
                    == old(self).last_command_output,
                Response::Command(output) => owned_text(final(self).last_command_output) == Some(
                    output@,
                ) && final(self).rag_context == old(self).rag_context && final(self).rag_answer
                    == old(self).rag_answer,
            },
    {
        self.is_loading = false;
        match response {
            Response::Rag(Ok(found)) => {
                self.rag_context = Some(found.0);
                self.rag_answer = Some(found.1);
            },
            Response::Rag(Err(e)) => {
                self.rag_context = Some(String::new());
                self.rag_answer = Some(concat2("Error: ", e.as_str()));
            },
            Response::Index(Ok(_)) => {
                self.rag_context = Some(String::from_str("Indexing complete."));
                self.rag_answer = Some(String::from_str("You can now run a RAG query."));
            },
            Response::Index(Err(e)) => {
                self.rag_context = Some(String::from_str("Indexing failed."));
                self.rag_answer = Some(concat2("Error: ", e.as_str()));
            },
            Response::Command(output) => {
                self.last_command_output = Some(output);
            },
        }
        self.context_auto_scroll = true;
        self.answer_auto_scroll = true;
    }

    /// Moves the spinner to its next frame while work is under way; returns
    /// whether the screen has to be drawn again.
    pub fn tick(&mut self) -> (r: bool)
        requires
            old(self).well_formed(),
        ensures
            final(self).well_formed(),
            r == old(self).is_loading,
            final(self).spinner_idx == if old(self).is_loading {
                (old(self).spinner_idx + 1) % 4
            } else {
                old(self).spinner_idx as int
            },
            *final(self) == (App { spinner_idx: final(self).spinner_idx, ..*old(self) }),
    {
        if self.is_loading {
            self.spinner_idx = (self.spinner_idx + 1) % 4;
            true
        } else {
            false
        }
    }

    /// Moves the focus to the other pane.
    pub fn toggle_focus(&mut self)
        ensures
            final(self).output_focus == match old(self).output_focus {
                OutputFocus::Context => OutputFocus::Answer,
                OutputFocus::Answer => OutputFocus::Context,
            },
            *final(self) == (App { output_focus: final(self).output_focus, ..*old(self) }),
    {
        self.output_focus = match self.output_focus {
            OutputFocus::Context => OutputFocus::Answer,
            OutputFocus::Answer => OutputFocus::Context,
        };
    }

    /// Changes what the input line is for, and clears it.
    pub fn toggle_mode(&mut self)
        ensures
            final(self).input_mode == match old(self).input_mode {
                InputMode::Text => InputMode::Command,
                InputMode::Command => InputMode::Text,
            },
            final(self).input@.len() == 0 && final(self).cursor == 0,
            final(self).context_auto_scroll && final(self).answer_auto_scroll,
            *final(self) == (App {
                input_mode: final(self).input_mode,
                input: final(self).input,
                cursor: final(self).cursor,
                context_auto_scroll: final(self).context_auto_scroll,
                answer_auto_scroll: final(self).answer_auto_scroll,
                ..*old(self)
            }),
    {
        self.input_mode = match self.input_mode {
            InputMode::Text => InputMode::Command,
            InputMode::Command => InputMode::Text,
        };
        self.input = String::new();
        self.cursor = 0;
        self.context_auto_scroll = true;
        self.answer_auto_scroll = true;
    }

    /// Lays the two panes out for texts of the given numbers of lines in
    /// panes of the given heights.
    pub fn layout(
        &mut self,
        context_lines: usize,
        context_height: usize,
        answer_lines: usize,
        answer_height: usize,
    )
        ensures
            final(self).context_content_len == context_lines && final(self).context_view_height
                == context_height && !final(self).context_auto_scroll,
            final(self).context_scroll == settled_scroll(
                old(self).context_scroll as nat,
                old(self).context_auto_scroll,
                context_lines as nat,
                context_height as nat,
            ),
            final(self).answer_content_len == answer_lines && final(self).answer_view_height
                == answer_height && !final(self).answer_auto_scroll,
            final(self).answer_scroll == settled_scroll(
                old(self).answer_scroll as nat,
                old(self).answer_auto_scroll,
                answer_lines as nat,
                answer_height as nat,
            ),
            *final(self) == (App {
                context_content_len: final(self).context_content_len,
                context_view_height: final(self).context_view_height,
                context_scroll: final(self).context_scroll,
                context_auto_scroll: final(self).context_auto_scroll,
                answer_content_len: final(self).answer_content_len,
                answer_view_height: final(self).answer_view_height,
                answer_scroll: final(self).answer_scroll,
                answer_auto_scroll: final(self).answer_auto_scroll,
                ..*old(self)
            }),
    {
        self.context_content_len = context_lines;
        self.context_view_height = context_height;
        let last = last_page(context_lines, context_height);
        if self.context_auto_scroll || self.context_scroll > last {
            self.context_scroll = last;
        }
        self.context_auto_scroll = false;
        self.answer_content_len = answer_lines;
        self.answer_view_height = answer_height;
        let last = last_page(answer_lines, answer_height);
        if self.answer_auto_scroll || self.answer_scroll > last {
            self.answer_scroll = last;
        }
        self.answer_auto_scroll = false;
    }
}

} // verus!
