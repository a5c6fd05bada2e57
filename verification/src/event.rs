//! Keyboard dispatch: maps one decoded key event, given the current
//! focus and loading state, onto exactly one form operation.
//!
//! Escape and the two focus keys act globally. While a request is in
//! flight every field-mutating key is ignored; only quitting, focus
//! motion and response scrolling stay available. A submit key does not
//! perform the network call: it validates and prepares the request,
//! and the caller runs the transport and folds the outcome back in.

use vstd::prelude::*;
use crate::buffer;
use crate::focus::AppFocus;
use crate::form::App;
use crate::form;
use crate::request::PreparedRequest;
use crate::scroll;

verus! {

/// A decoded key, free of any terminal backend's types.
#[derive(Clone, Copy, PartialEq, Eq, Structural, Debug)]
pub enum KeyCode {
    Esc,
    Tab,
    BackTab,
    Enter,
    Backspace,
    Delete,
    Left,
    Right,
    Up,
    Down,
    Home,
    End,
    PageUp,
    PageDown,
    Char(char),
}

/// A key press with its modifiers.
#[derive(Clone, Copy, PartialEq, Eq, Structural, Debug)]
pub struct KeyEvent {
    pub code: KeyCode,
    pub ctrl: bool,
    pub alt: bool,
    pub shift: bool,
}

impl KeyEvent {
    /// A key press without modifiers.
    pub fn plain(code: KeyCode) -> (r: KeyEvent)
        ensures
            r == (KeyEvent { code, ctrl: false, alt: false, shift: false }),
    {
        KeyEvent { code, ctrl: false, alt: false, shift: false }
    }
}

/// Addition clamped to the largest scroll offset.
pub open spec fn sat_add(a: int, b: int) -> int {
    if a + b <= usize::MAX {
        a + b
    } else {
        usize::MAX as int
    }
}

/// Subtraction clamped to zero.
pub open spec fn sat_sub(a: int, b: int) -> int {
    if a >= b {
        a - b
    } else {
        0
    }
}

/// Effect of a key while the method selector owns focus.
pub open spec fn method_step(pre: App, post: App, key: KeyEvent, sent: Option<
    PreparedRequest,
>) -> bool {
    match key.code {
        KeyCode::Up => sent is None && post == (App { method: pre.method.prev_spec(), ..pre }),
        KeyCode::Down => sent is None && post == (App { method: pre.method.next_spec(), ..pre }),
        KeyCode::Enter => form::start_send_rel(pre, post, sent),
        _ => sent is None && post == pre,
    }
}

/// The URL field and the buffers with their scroll offsets are
/// unchanged.
pub open spec fn same_fields(pre: App, post: App) -> bool {
    &&& form::same_url(pre, post)
    &&& post.headers == pre.headers
    &&& post.headers_scroll == pre.headers_scroll
    &&& post.body == pre.body
    &&& post.body_scroll == pre.body_scroll
}

/// Both buffers and their scroll offsets are unchanged.
pub open spec fn same_buffers(pre: App, post: App) -> bool {
    &&& post.headers == pre.headers
    &&& post.headers_scroll == pre.headers_scroll
    &&& post.body == pre.body
    &&& post.body_scroll == pre.body_scroll
}

/// Effect of a key while the URL field owns focus.
pub open spec fn url_step(pre: App, post: App, key: KeyEvent, sent: Option<
    PreparedRequest,
>) -> bool {
    match key.code {
        KeyCode::Enter => form::start_send_rel(pre, post, sent),
        KeyCode::Char(c) => {
            &&& sent is None
            &&& post.url_input@ == pre.url_input@.subrange(0, pre.cursor_position as int)
                + seq![c] + pre.url_input@.subrange(
                pre.cursor_position as int,
                pre.url_input@.len() as int,
            )
            &&& post.cursor_position == pre.cursor_position + 1
            &&& same_buffers(pre, post)
            &&& form::same_display(pre, post)
        },
        KeyCode::Backspace => {
            &&& sent is None
            &&& (pre.cursor_position > 0 ==> {
                &&& post.url_input@ == pre.url_input@.subrange(0, pre.cursor_position - 1)
                    + pre.url_input@.subrange(
                    pre.cursor_position as int,
                    pre.url_input@.len() as int,
                )
                &&& post.cursor_position == pre.cursor_position - 1
            })
            &&& (pre.cursor_position == 0 ==> form::same_url(pre, post))
            &&& same_buffers(pre, post)
            &&& form::same_display(pre, post)
        },
        KeyCode::Delete => {
            &&& sent is None
            &&& (pre.cursor_position < pre.url_input@.len() ==> {
                &&& post.url_input@ == pre.url_input@.subrange(0, pre.cursor_position as int)
                    + pre.url_input@.subrange(
                    pre.cursor_position + 1,
                    pre.url_input@.len() as int,
                )
                &&& post.cursor_position == pre.cursor_position
            })
            &&& (pre.cursor_position >= pre.url_input@.len() ==> form::same_url(pre, post))
            &&& same_buffers(pre, post)
            &&& form::same_display(pre, post)
        },
        KeyCode::Left => {
            &&& sent is None
            &&& post.url_input == pre.url_input
            &&& post.cursor_position == sat_sub(pre.cursor_position as int, 1)
            &&& same_buffers(pre, post)
            &&& form::same_display(pre, post)
        },
        KeyCode::Right => {
            &&& sent is None
            &&& post.url_input == pre.url_input
            &&& post.cursor_position == if pre.cursor_position < pre.url_input@.len() {
                pre.cursor_position + 1
            } else {
                pre.cursor_position as int
            }
            &&& same_buffers(pre, post)
            &&& form::same_display(pre, post)
        },
        KeyCode::Home => {
            &&& sent is None
            &&& post.url_input == pre.url_input
            &&& post.cursor_position == 0
            &&& same_buffers(pre, post)
            &&& form::same_display(pre, post)
        },
        KeyCode::End => {
            &&& sent is None
            &&& post.url_input == pre.url_input
            &&& post.cursor_position == pre.url_input@.len()
            &&& same_buffers(pre, post)
            &&& form::same_display(pre, post)
        },
        _ => sent is None && post == pre,
    }
}

/// The headers viewport height used when recomputing visibility.
pub const HEADERS_VIEWPORT: usize = 3;

/// The body viewport height used when recomputing visibility.
pub const BODY_VIEWPORT: usize = 6;

/// An edit of the headers buffer alone, its scroll offset untouched.
pub open spec fn headers_edit(pre: App, post: App, m: buffer::BufModel) -> bool {
    &&& post.headers.model() == m
    &&& post.headers_scroll == pre.headers_scroll
    &&& post.body == pre.body
    &&& post.body_scroll == pre.body_scroll
    &&& form::same_url(pre, post)
    &&& form::same_display(pre, post)
}

/// An edit of the headers buffer followed by the visibility recompute
/// for the headers viewport.
pub open spec fn headers_edit_scrolled(pre: App, post: App, m: buffer::BufModel) -> bool {
    &&& post.headers.model() == m
    &&& post.headers_scroll == scroll::ensure_visible_spec(
        m.line,
        pre.headers_scroll as int,
        HEADERS_VIEWPORT as int,
    )
    &&& post.body == pre.body
    &&& post.body_scroll == pre.body_scroll
    &&& form::same_url(pre, post)
    &&& form::same_display(pre, post)
}

/// Effect of a key while the headers field owns focus.
pub open spec fn headers_step(pre: App, post: App, key: KeyEvent, sent: Option<
    PreparedRequest,
>) -> bool {
    let m = pre.headers.model();
    match key.code {
        KeyCode::Char(c) => {
            if key.ctrl && c == 't' {
                sent is None && headers_edit(
                    pre,
                    post,
                    buffer::insert_model(buffer::insert_model(m, ' '), ' '),
                )
            } else if key.ctrl && c == 's' {
                form::start_send_rel(pre, post, sent)
            } else {
                sent is None && headers_edit(pre, post, buffer::insert_model(m, c))
            }
        },
        KeyCode::Backspace => sent is None && headers_edit_scrolled(
            pre,
            post,
            buffer::backspace_model(m),
        ),
        KeyCode::Enter => {
            if key.ctrl || key.alt {
                form::start_send_rel(pre, post, sent)
            } else {
                sent is None && headers_edit_scrolled(pre, post, buffer::split_model(m))
            }
        },
        KeyCode::Up => sent is None && headers_edit_scrolled(pre, post, buffer::move_up_model(m)),
        KeyCode::Down => sent is None && headers_edit_scrolled(
            pre,
            post,
            buffer::move_down_model(m),
        ),
        KeyCode::Left => sent is None && headers_edit(pre, post, buffer::move_left_model(m)),
        KeyCode::Right => sent is None && headers_edit(pre, post, buffer::move_right_model(m)),
        _ => sent is None && post == pre,
    }
}

/// An edit of the body buffer alone, its scroll offset untouched.
pub open spec fn body_edit(pre: App, post: App, m: buffer::BufModel) -> bool {
    &&& post.body.model() == m
    &&& post.body_scroll == pre.body_scroll
    &&& post.headers == pre.headers
    &&& post.headers_scroll == pre.headers_scroll
    &&& form::same_url(pre, post)
    &&& form::same_display(pre, post)
}

/// An edit of the body buffer followed by the visibility recompute for
/// the body viewport.
pub open spec fn body_edit_scrolled(pre: App, post: App, m: buffer::BufModel) -> bool {
    &&& post.body.model() == m
    &&& post.body_scroll == scroll::ensure_visible_spec(
        m.line,
        pre.body_scroll as int,
        BODY_VIEWPORT as int,
    )
    &&& post.headers == pre.headers
    &&& post.headers_scroll == pre.headers_scroll
    &&& form::same_url(pre, post)
    &&& form::same_display(pre, post)
}

/// Effect of a key while the body field owns focus.
pub open spec fn body_step(pre: App, post: App, key: KeyEvent, sent: Option<
    PreparedRequest,
>) -> bool {
    let m = pre.body.model();
    match key.code {
        KeyCode::Char(c) => {
            if key.ctrl && c == 't' {
                sent is None && body_edit(
                    pre,
                    post,
                    buffer::insert_model(buffer::insert_model(m, ' '), ' '),
                )
            } else if key.ctrl && c == 'f' {
                sent is None && form::format_rel(pre, post)
            } else if key.ctrl && c == 's' {
                form::start_send_rel(pre, post, sent)
            } else {
                sent is None && body_edit(pre, post, buffer::insert_model(m, c))
            }
        },
        KeyCode::Backspace => sent is None && body_edit_scrolled(
            pre,
            post,
            buffer::backspace_model(m),
        ),
        KeyCode::Enter => {
            if key.shift {
                sent is None && body_edit_scrolled(pre, post, buffer::split_model(m))
            } else if key.ctrl || key.alt {
                form::start_send_rel(pre, post, sent)
            } else {
                sent is None && body_edit_scrolled(pre, post, buffer::split_model(m))
            }
        },
        KeyCode::Up => sent is None && body_edit_scrolled(pre, post, buffer::move_up_model(m)),
        KeyCode::Down => sent is None && body_edit_scrolled(pre, post, buffer::move_down_model(m)),
        KeyCode::Left => sent is None && body_edit(pre, post, buffer::move_left_model(m)),
        KeyCode::Right => sent is None && body_edit(pre, post, buffer::move_right_model(m)),
        _ => sent is None && post == pre,
    }
}

/// Effect of a key while the response field owns focus; scrolling is
/// available even while a request is loading.
pub open spec fn response_step(pre: App, post: App, key: KeyEvent) -> bool {
    &&& same_fields(pre, post)
    &&& post.response == pre.response
    &&& post.loading == pre.loading
    &&& post.focus == pre.focus
    &&& post.should_quit == pre.should_quit
    &&& post.method == pre.method
    &&& form::same_meta(pre, post)
    &&& post.response_scroll == match key.code {
        KeyCode::Up => sat_sub(pre.response_scroll as int, 1),
        KeyCode::Down => sat_add(pre.response_scroll as int, 1),
        KeyCode::PageUp => sat_sub(pre.response_scroll as int, 10),
        KeyCode::PageDown => sat_add(pre.response_scroll as int, 10),
        KeyCode::Home => 0,
        _ => pre.response_scroll as int,
    }
}

/// The full key-dispatch relation: what one key press does to the form,
/// and whether it prepared a request for the transport.
pub open spec fn key_step(pre: App, post: App, key: KeyEvent, sent: Option<
    PreparedRequest,
>) -> bool {
    if key.code == KeyCode::Esc {
        sent is None && post == (App { should_quit: true, ..pre })
    } else if key.code == KeyCode::Tab {
        sent is None && post == (App { focus: pre.focus.advance_spec(), ..pre })
    } else if key.code == KeyCode::BackTab {
        sent is None && post == (App { focus: pre.focus.retreat_spec(), ..pre })
    } else {
        match pre.focus {
            AppFocus::MethodSelector => if pre.loading {
                sent is None && post == pre
            } else {
                method_step(pre, post, key, sent)
            },
            AppFocus::UrlInput => if pre.loading {
                sent is None && post == pre
            } else {
                url_step(pre, post, key, sent)
            },
            AppFocus::HeadersInput => if pre.loading {
                sent is None && post == pre
            } else {
                headers_step(pre, post, key, sent)
            },
            AppFocus::BodyInput => if pre.loading {
                sent is None && post == pre
            } else {
                body_step(pre, post, key, sent)
            },
            AppFocus::Response => sent is None && response_step(pre, post, key),
        }
    }
}

/// Dispatch one key event to the form. Returns the prepared request
/// when the key asked for a submit and validation accepted it; the
/// caller performs the transport and calls `finish_send`.
pub fn handle_key_event(app: &mut App, key: KeyEvent) -> (sent: Option<PreparedRequest>)
    requires
        old(app).wf(),
    ensures
        key_step(*old(app), *final(app), key, sent),
        final(app).wf(),
{
    match key.code {
        KeyCode::Esc => {
            app.should_quit = true;
            return None;
        },
        KeyCode::Tab => {
            app.focus = app.focus.advance();
            return None;
        },
        KeyCode::BackTab => {
            app.focus = app.focus.retreat();
            return None;
        },
        _ => {},
    }
    match app.focus {
        AppFocus::MethodSelector => {
            if !app.loading {
                match key.code {
                    KeyCode::Up => {
                        app.method = app.method.prev();
                    },
                    KeyCode::Down => {
                        app.method = app.method.next();
                    },
                    KeyCode::Enter => {
                        return app.start_send();
                    },
                    _ => {},
                }
            }
            None
        },
        AppFocus::UrlInput => {
            if !app.loading {
                match key.code {
                    KeyCode::Enter => {
                        return app.start_send();
                    },
                    KeyCode::Char(c) => {
                        app.handle_input_char(c);
                    },
                    KeyCode::Backspace => {
                        app.handle_backspace();
                    },
                    KeyCode::Delete => {
                        app.handle_delete();
                    },
                    KeyCode::Left => {
                        app.move_cursor_left();
                    },
                    KeyCode::Right => {
                        app.move_cursor_right();
                    },
                    KeyCode::Home => {
                        app.move_cursor_to_start();
                    },
                    KeyCode::End => {
                        app.move_cursor_to_end();
                    },
                    _ => {},
                }
            }
            None
        },
        AppFocus::HeadersInput => {
            if !app.loading {
                match key.code {
                    KeyCode::Char(c) => {
                        if key.ctrl && c == 't' {
                            app.handle_multiline_char(' ', true);
                            app.handle_multiline_char(' ', true);
                        } else if key.ctrl && c == 's' {
                            return app.start_send();
                        } else {
                            app.handle_multiline_char(c, true);
                        }
                    },
                    KeyCode::Backspace => {
                        app.handle_multiline_backspace(true);
                        app.ensure_headers_cursor_visible(HEADERS_VIEWPORT);
                    },
                    KeyCode::Enter => {
                        if key.ctrl || key.alt {
                            return app.start_send();
                        } else {
                            app.handle_multiline_enter(true);
                            app.ensure_headers_cursor_visible(HEADERS_VIEWPORT);
                        }
                    },
                    KeyCode::Up => {
                        app.handle_multiline_up(true);
                        app.ensure_headers_cursor_visible(HEADERS_VIEWPORT);
                    },
                    KeyCode::Down => {
                        app.handle_multiline_down(true);
                        app.ensure_headers_cursor_visible(HEADERS_VIEWPORT);
                    },
                    KeyCode::Left => {
                        app.handle_multiline_left(true);
                    },
                    KeyCode::Right => {
                        app.handle_multiline_right(true);
                    },
                    _ => {},
                }
            }
            None
        },
        AppFocus::BodyInput => {
            if !app.loading {
                match key.code {
                    KeyCode::Char(c) => {
                        if key.ctrl && c == 't' {
                            app.handle_multiline_char(' ', false);
                            app.handle_multiline_char(' ', false);
                        } else if key.ctrl && c == 'f' {
                            app.format_body_json();
                        } else if key.ctrl && c == 's' {
                            return app.start_send();
                        } else {
                            app.handle_multiline_char(c, false);
                        }
                    },
                    KeyCode::Backspace => {
                        app.handle_multiline_backspace(false);
                        app.ensure_body_cursor_visible(BODY_VIEWPORT);
                    },
                    KeyCode::Enter => {
                        if key.shift {
                            app.handle_multiline_enter(false);
                            app.ensure_body_cursor_visible(BODY_VIEWPORT);
                        } else if key.ctrl || key.alt {
                            return app.start_send();
                        } else {
                            app.handle_multiline_enter(false);
                            app.ensure_body_cursor_visible(BODY_VIEWPORT);
                        }
                    },
                    KeyCode::Up => {
                        app.handle_multiline_up(false);
                        app.ensure_body_cursor_visible(BODY_VIEWPORT);
                    },
                    KeyCode::Down => {
                        app.handle_multiline_down(false);
                        app.ensure_body_cursor_visible(BODY_VIEWPORT);
                    },
                    KeyCode::Left => {
                        app.handle_multiline_left(false);
                    },
                    KeyCode::Right => {
                        app.handle_multiline_right(false);
                    },
                    _ => {},
                }
            }
            None
        },
        AppFocus::Response => {
            match key.code {
                KeyCode::Up => {
                    if app.response_scroll >= 1 {
                        app.response_scroll = app.response_scroll - 1;
                    } else {
                        app.response_scroll = 0;
                    }
                },
                KeyCode::Down => {
                    if app.response_scroll <= usize::MAX - 1 {
                        app.response_scroll = app.response_scroll + 1;
                    } else {
                        app.response_scroll = usize::MAX;
                    }
                },
                KeyCode::PageUp => {
                    if app.response_scroll >= 10 {
                        app.response_scroll = app.response_scroll - 10;
                    } else {
                        app.response_scroll = 0;
                    }
                },
                KeyCode::PageDown => {
                    if app.response_scroll <= usize::MAX - 10 {
                        app.response_scroll = app.response_scroll + 10;
                    } else {
                        app.response_scroll = usize::MAX;
                    }
                },
                KeyCode::Home => {
                    app.response_scroll = 0;
                },
                _ => {},
            }
            None
        },
    }
}

} // verus!
