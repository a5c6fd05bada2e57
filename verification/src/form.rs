//! The request form state: single owner of the URL line, the header and
//! body buffers, the focus, the response field and the captured
//! metadata, mutated only through the operations below.

use vstd::prelude::*;
use vstd::string::*;
use crate::buffer::MultiLineBuffer;
use crate::buffer;
use crate::focus::AppFocus;
use crate::json;
use crate::method::HttpMethod;
use crate::request::PreparedRequest;
use crate::request::TransportOutcome;
use crate::request::ValidationError;
use crate::request;
use crate::scroll;
use crate::text;

verus! {

/// The whole form state of the request composer.
pub struct App {
    /// The single-line URL field.
    pub url_input: String,
    /// Cursor column within the URL field, in characters.
    pub cursor_position: usize,
    /// Text of the response field.
    pub response: String,
    /// Scroll offset of the response field.
    pub response_scroll: usize,
    /// True only while a request is in flight.
    pub loading: bool,
    /// The field that owns keyboard focus.
    pub focus: AppFocus,
    /// Set when the user asks to quit.
    pub should_quit: bool,
    /// The selected HTTP method.
    pub method: HttpMethod,
    /// The headers field, one header per line.
    pub headers: MultiLineBuffer,
    /// Scroll offset of the headers field.
    pub headers_scroll: usize,
    /// The body field.
    pub body: MultiLineBuffer,
    /// Scroll offset of the body field.
    pub body_scroll: usize,
    /// Elapsed time of the last completed request, in milliseconds.
    pub response_time_ms: Option<u64>,
    /// Status code of the last completed request.
    pub status_code: Option<u16>,
    /// Byte size of the last read response body.
    pub response_size: Option<usize>,
}

/// The two fields of the URL line are unchanged.
pub open spec fn same_url(a: App, b: App) -> bool {
    &&& b.url_input == a.url_input
    &&& b.cursor_position == a.cursor_position
}

/// The captured metadata is unchanged.
pub open spec fn same_meta(a: App, b: App) -> bool {
    &&& b.response_time_ms == a.response_time_ms
    &&& b.status_code == a.status_code
    &&& b.response_size == a.response_size
}

/// Everything outside the URL line and the two buffers is unchanged.
pub open spec fn same_non_edit(a: App, b: App) -> bool {
    &&& b.response == a.response
    &&& b.response_scroll == a.response_scroll
    &&& b.loading == a.loading
    &&& b.focus == a.focus
    &&& b.should_quit == a.should_quit
    &&& b.method == a.method
    &&& b.headers_scroll == a.headers_scroll
    &&& b.body_scroll == a.body_scroll
    &&& same_meta(a, b)
}

/// Everything outside the two edit-scroll offsets is unchanged.
pub open spec fn same_except_edit_scrolls(a: App, b: App) -> bool {
    &&& same_url(a, b)
    &&& b.headers == a.headers
    &&& b.body == a.body
    &&& b.response == a.response
    &&& b.response_scroll == a.response_scroll
    &&& b.loading == a.loading
    &&& b.focus == a.focus
    &&& b.should_quit == a.should_quit
    &&& b.method == a.method
    &&& same_meta(a, b)
}

/// The response field, the mode flags, the selected method and the
/// captured metadata are unchanged.
pub open spec fn same_display(a: App, b: App) -> bool {
    &&& b.response == a.response
    &&& b.response_scroll == a.response_scroll
    &&& b.loading == a.loading
    &&& b.focus == a.focus
    &&& b.should_quit == a.should_quit
    &&& b.method == a.method
    &&& same_meta(a, b)
}

/// No line of the sequence contains a newline character.
pub open spec fn lines_no_nl(ls: Seq<Seq<char>>) -> bool {
    forall|k: int, j: int| 0 <= k < ls.len() && 0 <= j < ls[k].len() ==> ls[k][j] != '\n'
}

/// Effect of a submit attempt on the form, up to the network call: an
/// empty URL or an invalid JSON body is rejected with its error text
/// and nothing is prepared; otherwise the form enters the loading
/// state, the previous metadata is cleared, and the prepared request
/// carries exactly the validated fields.
pub open spec fn start_send_rel(pre: App, post: App, r: Option<PreparedRequest>) -> bool {
    let bt = request::body_text_spec(pre.body.model().lines);
    &&& same_url(pre, post)
    &&& post.headers == pre.headers
    &&& post.headers_scroll == pre.headers_scroll
    &&& post.body == pre.body
    &&& post.body_scroll == pre.body_scroll
    &&& post.focus == pre.focus
    &&& post.should_quit == pre.should_quit
    &&& post.method == pre.method
    &&& if pre.url_input@.len() == 0 {
        &&& r is None
        &&& post.response@ == "Error: URL cannot be empty"@
        &&& post.response_scroll == pre.response_scroll
        &&& post.loading == pre.loading
        &&& same_meta(pre, post)
    } else if bt.len() > 0 && !json::json_valid(bt) {
        &&& r is None
        &&& post.response@ == "Error: Invalid JSON in body: "@ + json::json_err(bt)
        &&& post.response_scroll == pre.response_scroll
        &&& post.loading == false
        &&& same_meta(pre, post)
    } else {
        &&& post.loading == true
        &&& post.response@ == "Loading..."@
        &&& post.response_scroll == 0
        &&& post.response_time_ms is None
        &&& post.status_code is None
        &&& post.response_size is None
        &&& (r matches Some(p) && {
            &&& p.method == pre.method
            &&& p.url@ == pre.url_input@
            &&& request::pairs_view(p.headers@) == request::parse_headers_spec(
                pre.headers.model().lines,
            )
            &&& (bt.len() == 0 ==> p.body is None)
            &&& (bt.len() > 0 ==> (p.body matches Some(b) && b@ == bt))
        })
    }
}

/// Effect of folding a transport outcome back into the form: loading
/// ends; a transport failure writes its message and touches no
/// metadata; a received response records status and elapsed time, and
/// its body text — pretty-printed when it parses as JSON — or the
/// read-failure message, with the size recorded only when the body was
/// read.
pub open spec fn finish_send_rel(pre: App, post: App, outcome: TransportOutcome) -> bool {
    &&& same_url(pre, post)
    &&& post.headers == pre.headers
    &&& post.headers_scroll == pre.headers_scroll
    &&& post.body == pre.body
    &&& post.body_scroll == pre.body_scroll
    &&& post.focus == pre.focus
    &&& post.should_quit == pre.should_quit
    &&& post.method == pre.method
    &&& post.loading == false
    &&& post.response_scroll == pre.response_scroll
    &&& match outcome {
        TransportOutcome::Failed { message } => {
            &&& post.response@ == "Request failed: "@ + message@
            &&& same_meta(pre, post)
        },
        TransportOutcome::Received { status, elapsed_ms, body } => {
            &&& post.status_code == Some(status)
            &&& post.response_time_ms == Some(elapsed_ms)
            &&& match body {
                Ok(text) => {
                    &&& (post.response_size matches Some(sz) && sz == vstd::utf8::encode_utf8(
                        text@,
                    ).len() as usize)
                    &&& (json::json_valid(text@) ==> post.response@ == json::json_pretty(text@))
                    &&& (!json::json_valid(text@) ==> post.response@ == text@)
                },
                Err(m) => {
                    &&& post.response@ == "Error reading response: "@ + m@
                    &&& post.response_size == pre.response_size
                },
            }
        },
    }
}

/// Effect of the body formatting command: when the joined body text is
/// valid JSON, the body lines become its pretty form split on newlines
/// and the cursor returns to the start; otherwise nothing changes. The
/// pretty form is itself valid JSON and a fixed point of
/// pretty-printing, so a body that is already a pretty form keeps its
/// lines: formatting twice yields what formatting once yields.
pub open spec fn format_rel(pre: App, post: App) -> bool {
    let jt = text::join_lines(pre.body.model().lines);
    &&& same_url(pre, post)
    &&& post.headers == pre.headers
    &&& same_non_edit(pre, post)
    &&& (!json::json_valid(jt) ==> post.body == pre.body)
    &&& (json::json_valid(jt) ==> {
        &&& post.body.model().lines == text::split_lines(json::json_pretty(jt))
        &&& post.body.cursor_line == 0
        &&& post.body.cursor_col == 0
        &&& lines_no_nl(post.body.model().lines)
        &&& json::json_valid(json::json_pretty(jt))
        &&& json::json_pretty(json::json_pretty(jt)) == json::json_pretty(jt)
    })
    &&& (json::json_valid(jt) && json::json_pretty(jt) == jt && lines_no_nl(
        pre.body.model().lines,
    ) ==> post.body.model().lines == pre.body.model().lines)
}

/// Law: formatting the body twice yields what formatting it once
/// yields — the second pass changes neither the lines nor the cursor.
/// After a first pass the joined body text is the pretty form, which
/// is valid JSON and a fixed point of pretty-printing, so the second
/// pass reproduces the same lines; and a body the formatter rejected
/// is left untouched both times.
pub proof fn lemma_format_idempotent(a: App, b: App, c: App)
    requires
        a.wf(),
        format_rel(a, b),
        format_rel(b, c),
    ensures
        c.body.model() == b.body.model(),
{
    let jt1 = text::join_lines(a.body.model().lines);
    if json::json_valid(jt1) {
        let p = json::json_pretty(jt1);
        text::lemma_join_split(p);
        assert(text::join_lines(b.body.model().lines) == p);
    }
}

impl App {
    /// The form invariants: the URL cursor is within the URL text and
    /// both buffers satisfy the cursor bound invariant.
    pub open spec fn wf(self) -> bool {
        &&& self.cursor_position <= self.url_input@.len()
        &&& self.headers.wf()
        &&& self.body.wf()
    }

    /// The fresh form: sample URL with the cursor at its end, empty
    /// response object text, method selector focused, the first method
    /// selected, one empty line in each buffer, and no metadata.
    pub fn new() -> (r: App)
        ensures
            r.url_input@ == "https://pokeapi.co/api/v2/pokemon/snorlax"@,
            r.cursor_position == r.url_input@.len(),
            r.response@ == "{}"@,
            r.response_scroll == 0,
            !r.loading,
            r.focus == AppFocus::MethodSelector,
            !r.should_quit,
            r.method == HttpMethod::Get,
            r.headers.model().lines =~= seq![Seq::<char>::empty()],
            r.headers.cursor_line == 0,
            r.headers.cursor_col == 0,
            r.headers_scroll == 0,
            r.body.model().lines =~= seq![Seq::<char>::empty()],
            r.body.cursor_line == 0,
            r.body.cursor_col == 0,
            r.body_scroll == 0,
            r.response_time_ms is None,
            r.status_code is None,
            r.response_size is None,
            r.wf(),
    {
        let url = String::from_str("https://pokeapi.co/api/v2/pokemon/snorlax");
        let cursor = text::char_count(url.as_str());
        App {
            url_input: url,
            cursor_position: cursor,
            response: String::from_str("{}"),
            response_scroll: 0,
            loading: false,
            focus: AppFocus::MethodSelector,
            should_quit: false,
            method: HttpMethod::Get,
            headers: MultiLineBuffer::new(),
            headers_scroll: 0,
            body: MultiLineBuffer::new(),
            body_scroll: 0,
            response_time_ms: None,
            status_code: None,
            response_size: None,
        }
    }

    // -----------------------------------------------------------------
    // URL field operations

    /// Insert a character at the URL cursor; always succeeds.
    pub fn handle_input_char(&mut self, c: char)
        requires
            old(self).wf(),
        ensures
            final(self).url_input@ == old(self).url_input@.subrange(
                0,
                old(self).cursor_position as int,
            ) + seq![c] + old(self).url_input@.subrange(
                old(self).cursor_position as int,
                old(self).url_input@.len() as int,
            ),
            final(self).cursor_position == old(self).cursor_position + 1,
            final(self).headers == old(self).headers,
            final(self).body == old(self).body,
            same_non_edit(*old(self), *final(self)),
            final(self).wf(),
    {
        let updated = text::insert_char_at(self.url_input.as_str(), self.cursor_position, c);
        // The longer text fits in usize, so the cursor bump cannot overflow.
        let n = text::char_count(updated.as_str());
        self.url_input = updated;
        self.cursor_position = self.cursor_position + 1;
    }

    /// Remove the character before the URL cursor, if any.
    pub fn handle_backspace(&mut self)
        requires
            old(self).wf(),
        ensures
            old(self).cursor_position > 0 ==> {
                &&& final(self).url_input@ == old(self).url_input@.subrange(
                    0,
                    old(self).cursor_position - 1,
                ) + old(self).url_input@.subrange(
                    old(self).cursor_position as int,
                    old(self).url_input@.len() as int,
                )
                &&& final(self).cursor_position == old(self).cursor_position - 1
            },
            old(self).cursor_position == 0 ==> same_url(*old(self), *final(self)),
            final(self).headers == old(self).headers,
            final(self).body == old(self).body,
            same_non_edit(*old(self), *final(self)),
            final(self).wf(),
    {
        if self.cursor_position > 0 {
            self.cursor_position = self.cursor_position - 1;
            let updated = text::remove_char_at(self.url_input.as_str(), self.cursor_position);
            self.url_input = updated;
        }
    }

    /// Remove the character at the URL cursor, if any.
    pub fn handle_delete(&mut self)
        requires
            old(self).wf(),
        ensures
            old(self).cursor_position < old(self).url_input@.len() ==> {
                &&& final(self).url_input@ == old(self).url_input@.subrange(
                    0,
                    old(self).cursor_position as int,
                ) + old(self).url_input@.subrange(
                    old(self).cursor_position + 1,
                    old(self).url_input@.len() as int,
                )
                &&& final(self).cursor_position == old(self).cursor_position
            },
            old(self).cursor_position >= old(self).url_input@.len() ==> same_url(
                *old(self),
                *final(self),
            ),
            final(self).headers == old(self).headers,
            final(self).body == old(self).body,
            same_non_edit(*old(self), *final(self)),
            final(self).wf(),
    {
        let n = text::char_count(self.url_input.as_str());
        if self.cursor_position < n {
            let updated = text::remove_char_at(self.url_input.as_str(), self.cursor_position);
            self.url_input = updated;
        }
    }

    /// Move the URL cursor one character left, stopping at the start.
    pub fn move_cursor_left(&mut self)
        requires
            old(self).wf(),
        ensures
            final(self).url_input == old(self).url_input,
            final(self).cursor_position == if old(self).cursor_position > 0 {
                old(self).cursor_position - 1
            } else {
                0int
            },
            final(self).headers == old(self).headers,
            final(self).body == old(self).body,
            same_non_edit(*old(self), *final(self)),
            final(self).wf(),
    {
        if self.cursor_position > 0 {
            self.cursor_position = self.cursor_position - 1;
        }
    }

    /// Move the URL cursor one character right, stopping at the end.
    pub fn move_cursor_right(&mut self)
        requires
            old(self).wf(),
        ensures
            final(self).url_input == old(self).url_input,
            final(self).cursor_position == if old(self).cursor_position < old(
                self,
            ).url_input@.len() {
                old(self).cursor_position + 1
            } else {
                old(self).cursor_position as int
            },
            final(self).headers == old(self).headers,
            final(self).body == old(self).body,
            same_non_edit(*old(self), *final(self)),
            final(self).wf(),
    {
        let n = text::char_count(self.url_input.as_str());
        if self.cursor_position < n {
            self.cursor_position = self.cursor_position + 1;
        }
    }

    /// Move the URL cursor to the start of the line.
    pub fn move_cursor_to_start(&mut self)
        requires
            old(self).wf(),
        ensures
            final(self).url_input == old(self).url_input,
            final(self).cursor_position == 0,
            final(self).headers == old(self).headers,
            final(self).body == old(self).body,
            same_non_edit(*old(self), *final(self)),
            final(self).wf(),
    {
        self.cursor_position = 0;
    }

    /// Move the URL cursor to the end of the line.
    pub fn move_cursor_to_end(&mut self)
        requires
            old(self).wf(),
        ensures
            final(self).url_input == old(self).url_input,
            final(self).cursor_position == old(self).url_input@.len(),
            final(self).headers == old(self).headers,
            final(self).body == old(self).body,
            same_non_edit(*old(self), *final(self)),
            final(self).wf(),
    {
        self.cursor_position = text::char_count(self.url_input.as_str());
    }

    // -----------------------------------------------------------------
    // Multi-line field operations, dispatched to the headers or body
    // buffer

    /// Insert a character at the cursor of the selected buffer.
    pub fn handle_multiline_char(&mut self, c: char, is_headers: bool)
        requires
            old(self).wf(),
        ensures
            is_headers ==> final(self).headers.model() == buffer::insert_model(
                old(self).headers.model(),
                c,
            ) && final(self).body == old(self).body,
            !is_headers ==> final(self).body.model() == buffer::insert_model(
                old(self).body.model(),
                c,
            ) && final(self).headers == old(self).headers,
            same_url(*old(self), *final(self)),
            same_non_edit(*old(self), *final(self)),
            final(self).wf(),
    {
        if is_headers {
            self.headers.insert_char(c);
        } else {
            self.body.insert_char(c);
        }
    }

    /// Backspace at the cursor of the selected buffer.
    pub fn handle_multiline_backspace(&mut self, is_headers: bool)
        requires
            old(self).wf(),
        ensures
            is_headers ==> final(self).headers.model() == buffer::backspace_model(
                old(self).headers.model(),
            ) && final(self).body == old(self).body,
            !is_headers ==> final(self).body.model() == buffer::backspace_model(
                old(self).body.model(),
            ) && final(self).headers == old(self).headers,
            same_url(*old(self), *final(self)),
            same_non_edit(*old(self), *final(self)),
            final(self).wf(),
    {
        if is_headers {
            self.headers.backspace();
        } else {
            self.body.backspace();
        }
    }

    /// Split the current line of the selected buffer at the cursor.
    pub fn handle_multiline_enter(&mut self, is_headers: bool)
        requires
            old(self).wf(),
        ensures
            is_headers ==> final(self).headers.model() == buffer::split_model(
                old(self).headers.model(),
            ) && final(self).body == old(self).body,
            !is_headers ==> final(self).body.model() == buffer::split_model(
                old(self).body.model(),
            ) && final(self).headers == old(self).headers,
            same_url(*old(self), *final(self)),
            same_non_edit(*old(self), *final(self)),
            final(self).wf(),
    {
        if is_headers {
            self.headers.split_line();
        } else {
            self.body.split_line();
        }
    }

    /// Move the cursor of the selected buffer up one line.
    pub fn handle_multiline_up(&mut self, is_headers: bool)
        requires
            old(self).wf(),
        ensures
            is_headers ==> final(self).headers.model() == buffer::move_up_model(
                old(self).headers.model(),
            ) && final(self).body == old(self).body,
            !is_headers ==> final(self).body.model() == buffer::move_up_model(
                old(self).body.model(),
            ) && final(self).headers == old(self).headers,
            same_url(*old(self), *final(self)),
            same_non_edit(*old(self), *final(self)),
            final(self).wf(),
    {
        if is_headers {
            self.headers.move_up();
        } else {
            self.body.move_up();
        }
    }

    /// Move the cursor of the selected buffer down one line.
    pub fn handle_multiline_down(&mut self, is_headers: bool)
        requires
            old(self).wf(),
        ensures
            is_headers ==> final(self).headers.model() == buffer::move_down_model(
                old(self).headers.model(),
            ) && final(self).body == old(self).body,
            !is_headers ==> final(self).body.model() == buffer::move_down_model(
                old(self).body.model(),
            ) && final(self).headers == old(self).headers,
            same_url(*old(self), *final(self)),
            same_non_edit(*old(self), *final(self)),
            final(self).wf(),
    {
        if is_headers {
            self.headers.move_down();
        } else {
            self.body.move_down();
        }
    }

    /// Move the cursor of the selected buffer one column left.
    pub fn handle_multiline_left(&mut self, is_headers: bool)
        requires
            old(self).wf(),
        ensures
            is_headers ==> final(self).headers.model() == buffer::move_left_model(
                old(self).headers.model(),
            ) && final(self).body == old(self).body,
            !is_headers ==> final(self).body.model() == buffer::move_left_model(
                old(self).body.model(),
            ) && final(self).headers == old(self).headers,
            same_url(*old(self), *final(self)),
            same_non_edit(*old(self), *final(self)),
            final(self).wf(),
    {
        if is_headers {
            self.headers.move_left();
        } else {
            self.body.move_left();
        }
    }

    /// Move the cursor of the selected buffer one column right.
    pub fn handle_multiline_right(&mut self, is_headers: bool)
        requires
            old(self).wf(),
        ensures
            is_headers ==> final(self).headers.model() == buffer::move_right_model(
                old(self).headers.model(),
            ) && final(self).body == old(self).body,
            !is_headers ==> final(self).body.model() == buffer::move_right_model(
                old(self).body.model(),
            ) && final(self).headers == old(self).headers,
            same_url(*old(self), *final(self)),
            same_non_edit(*old(self), *final(self)),
            final(self).wf(),
    {
        if is_headers {
            self.headers.move_right();
        } else {
            self.body.move_right();
        }
    }

    // -----------------------------------------------------------------
    // Scroll visibility

    /// Bring the body cursor line into the body viewport.
    pub fn ensure_body_cursor_visible(&mut self, visible_lines: usize)
        requires
            old(self).wf(),
        ensures
            final(self).body_scroll == scroll::ensure_visible_spec(
                old(self).body.cursor_line as int,
                old(self).body_scroll as int,
                visible_lines as int,
            ),
            visible_lines > 0 ==> scroll::visible(
                old(self).body.cursor_line as int,
                final(self).body_scroll as int,
                visible_lines as int,
            ),
            final(self).headers_scroll == old(self).headers_scroll,
            same_except_edit_scrolls(*old(self), *final(self)),
            final(self).wf(),
    {
        self.body_scroll = scroll::ensure_visible(
            self.body.cursor_line,
            self.body_scroll,
            visible_lines,
        );
    }

    /// Bring the headers cursor line into the headers viewport.
    pub fn ensure_headers_cursor_visible(&mut self, visible_lines: usize)
        requires
            old(self).wf(),
        ensures
            final(self).headers_scroll == scroll::ensure_visible_spec(
                old(self).headers.cursor_line as int,
                old(self).headers_scroll as int,
                visible_lines as int,
            ),
            visible_lines > 0 ==> scroll::visible(
                old(self).headers.cursor_line as int,
                final(self).headers_scroll as int,
                visible_lines as int,
            ),
            final(self).body_scroll == old(self).body_scroll,
            same_except_edit_scrolls(*old(self), *final(self)),
            final(self).wf(),
    {
        self.headers_scroll = scroll::ensure_visible(
            self.headers.cursor_line,
            self.headers_scroll,
            visible_lines,
        );
    }

    // -----------------------------------------------------------------
    // Submit pipeline

    /// Validate and assemble a submit attempt. On success the form
    /// enters the loading state and the prepared request is returned
    /// for the transport; on rejection the error text replaces the
    /// response and nothing else is touched.
    pub fn start_send(&mut self) -> (r: Option<PreparedRequest>)
        requires
            old(self).wf(),
        ensures
            start_send_rel(*old(self), *final(self), r),
            final(self).wf(),
    {
        match request::assemble_request(self.method, &self.url_input, &self.headers, &self.body) {
            Ok(p) => {
                self.loading = true;
                self.response = String::from_str("Loading...");
                self.response_scroll = 0;
                self.response_time_ms = None;
                self.status_code = None;
                self.response_size = None;
                Some(p)
            },
            Err(e) => {
                let msg = e.message();
                match e {
                    ValidationError::EmptyUrl => {},
                    ValidationError::InvalidJsonBody { .. } => {
                        self.loading = false;
                    },
                }
                self.response = msg;
                None
            },
        }
    }

    /// Fold the outcome of the transport back into the form.
    pub fn finish_send(&mut self, outcome: TransportOutcome)
        requires
            old(self).wf(),
        ensures
            finish_send_rel(*old(self), *final(self), outcome),
            final(self).wf(),
    {
        match outcome {
            TransportOutcome::Failed { message } => {
                self.response = String::from_str("Request failed: ").concat(message.as_str());
            },
            TransportOutcome::Received { status, elapsed_ms, body } => {
                self.status_code = Some(status);
                self.response_time_ms = Some(elapsed_ms);
                match body {
                    Ok(body_text) => {
                        self.response_size = Some(body_text.as_str().len());
                        match json::json_reformat(body_text.as_str()) {
                            Ok(p) => {
                                self.response = p;
                            },
                            Err(_) => {
                                self.response = body_text;
                            },
                        }
                    },
                    Err(m) => {
                        self.response = String::from_str("Error reading response: ").concat(
                            m.as_str(),
                        );
                    },
                }
            },
        }
        self.loading = false;
    }

    // -----------------------------------------------------------------
    // Body formatting

    /// Re-serialize the body as pretty-printed JSON: on success the
    /// body lines are replaced with the pretty form split on newlines
    /// and the cursor is reset to the start; a body that does not parse
    /// as JSON — the empty body included — is left untouched, silently.
    ///
    /// Formatting an already-pretty-printed body is a no-op on the
    /// lines: a body whose joined text is a fixed point of
    /// pretty-printing keeps its line sequence, so formatting twice
    /// yields the same lines as formatting once.
    pub fn format_body_json(&mut self)
        requires
            old(self).wf(),
        ensures
            format_rel(*old(self), *final(self)),
            final(self).wf(),
    {
        let joined = text::join_text(&self.body.lines);
        match json::json_reformat(joined.as_str()) {
            Ok(p) => {
                let new_lines = text::split_text(p.as_str());
                self.body.lines = new_lines;
                self.body.cursor_line = 0;
                self.body.cursor_col = 0;
                proof {
                    let jt = text::join_lines(old(self).body.model().lines);
                    text::lemma_split_no_nl(p@);
                    assert(final(self).body.model().lines == text::split_lines(p@));
                    text::lemma_split_nonempty(p@);
                    if json::json_pretty(jt) == jt && lines_no_nl(old(self).body.model().lines) {
                        text::lemma_split_join(old(self).body.model().lines);
                    }
                }
            },
            Err(_) => {},
        }
    }
}

} // verus!
