//! Multi-tap text entry: a numeric mode that appends digits directly,
//! and alphabetic modes that disambiguate several characters per key by
//! repeated presses inside a timeout window.

use vstd::prelude::*;
use vstd::string::StrSliceExecFns;
use vstd::string::StringExecFns;

use crate::gui::{elapsed_ms, spec_elapsed_ms, GuiAction, GuiElement, RenderModel, ScreenMetrics, TextLayout};
use crate::input::{digit_char, spec_digit_char, UserInput};

verus! {

/// How a finished edit ended: with the text as committed so far, or
/// abandoned.
pub enum TextInputResult {
    Edited(String),
    Canceled,
}

/// Which keyboard the editor runs: digits only, or multi-tap text with
/// capitals first or lowercase first.
#[derive(Clone, Copy, Debug, PartialEq, Eq, Structural)]
pub enum KeyboardType {
    Numbers,
    TextStartCaps,
    TextStartLower,
}

/// The text-entry state: the prompt shown above the field, the text
/// committed so far, and the multi-tap state (the candidate characters
/// of the last key pressed and the index of the previewed one).
pub struct TextInputHelper {
    pub prompt: String,
    pub text: String,
    pub keyboard: KeyboardType,
    pub last_input_ms: u64,
    pub multi_press_timeout_ms: u64,
    pub multi_press_count: u8,
    pub multi_press_sequence: String,
}

/// The ordered candidate characters one digit key cycles through.
pub open spec fn spec_digit_sequence(keyboard: KeyboardType, n: u8) -> Seq<char> {
    if keyboard == KeyboardType::TextStartCaps {
        if n == 0 {
            " "@
        } else if n == 1 {
            ".,"@
        } else if n == 2 {
            "ABCabc"@
        } else if n == 3 {
            "DEFdef"@
        } else if n == 4 {
            "GHIghi"@
        } else if n == 5 {
            "JKLjkl"@
        } else if n == 6 {
            "MNOmno"@
        } else if n == 7 {
            "PQRSpqrs"@
        } else if n == 8 {
            "TUVtuv"@
        } else {
            "WXYZwxyz"@
        }
    } else {
        if n == 0 {
            " "@
        } else if n == 1 {
            ".,"@
        } else if n == 2 {
            "abcABC"@
        } else if n == 3 {
            "defDEF"@
        } else if n == 4 {
            "ghiGHI"@
        } else if n == 5 {
            "jklJKL"@
        } else if n == 6 {
            "mnoMNO"@
        } else if n == 7 {
            "pqrsPQRS"@
        } else if n == 8 {
            "tuvTUV"@
        } else {
            "wxyzWXYZ"@
        }
    }
}

/// The candidate sequence a key press maps to in an alphabetic mode, or
/// nothing for keys that carry no characters.
pub open spec fn spec_key_sequence(keyboard: KeyboardType, input: UserInput) -> Option<Seq<char>> {
    match input {
        UserInput::Number(n) => Some(spec_digit_sequence(keyboard, n)),
        UserInput::Star => Some("+-*/"@),
        UserInput::Hash => Some("#"@),
        _ => None,
    }
}

/// The multi-tap index after one more press of the same key: one step
/// forward, wrapping to the first candidate past the last.
pub open spec fn advanced_count(count: nat, len: nat) -> nat {
    if count + 1 >= len {
        0
    } else {
        count + 1
    }
}

impl TextInputHelper {
    /// The preview index stays inside the active candidate sequence (and
    /// is zero when none is active), and every candidate sequence a key
    /// maps to has at most eight characters.
    pub open spec fn wf(&self) -> bool {
        &&& self.multi_press_sequence@.len() == 0 ==> self.multi_press_count == 0
        &&& self.multi_press_sequence@.len() > 0 ==> (
        self.multi_press_count as int) < self.multi_press_sequence@.len()
        &&& self.multi_press_sequence@.len() <= 8
    }

    /// The character currently previewed (committed by a timeout or a
    /// key switch).
    pub open spec fn pending_char(&self) -> char {
        self.multi_press_sequence@[self.multi_press_count as int]
    }
}

/// How one key press steps the editor: relates the state before to the
/// state after and to the returned signal.
///
/// Numeric mode appends the digit at once. Alphabetic modes repeat-press
/// to advance the preview, and commit the previous preview when a
/// different key starts a new sequence. SoftKey always returns the text
/// as committed so far (a still-pending preview is not flushed first),
/// and Call always cancels; neither touches the state.
pub open spec fn text_steps(
    pre: TextInputHelper,
    post: TextInputHelper,
    input: UserInput,
    now_ms: u64,
    r: Option<TextInputResult>,
) -> bool {
    if pre.keyboard == KeyboardType::Numbers {
        match input {
            UserInput::Number(n) => {
                &&& post.text@ == pre.text@.push(spec_digit_char(n))
                &&& post == (TextInputHelper { text: post.text, ..pre })
                &&& r is None
            },
            UserInput::SoftKey => post == pre && r == Some(TextInputResult::Edited(pre.text)),
            UserInput::Call => post == pre && r == Some(TextInputResult::Canceled),
            _ => post == pre && r is None,
        }
    } else {
        match input {
            UserInput::SoftKey => post == pre && r == Some(TextInputResult::Edited(pre.text)),
            UserInput::Call => post == pre && r == Some(TextInputResult::Canceled),
            _ => {
                &&& r is None
                &&& match spec_key_sequence(pre.keyboard, input) {
                    Some(next) => if next == pre.multi_press_sequence@ {
                        &&& post.multi_press_count as nat == advanced_count(
                            pre.multi_press_count as nat,
                            pre.multi_press_sequence@.len(),
                        )
                        &&& post == (TextInputHelper {
                            last_input_ms: now_ms,
                            multi_press_count: post.multi_press_count,
                            ..pre
                        })
                    } else {
                        &&& post.text@ == pre.text@ + (if pre.multi_press_sequence@.len() > 0 {
                            seq![pre.pending_char()]
                        } else {
                            Seq::<char>::empty()
                        })
                        &&& post.multi_press_sequence@ == next
                        &&& post.multi_press_count == 0
                        &&& post.last_input_ms == now_ms
                        &&& post.prompt == pre.prompt
                        &&& post.keyboard == pre.keyboard
                        &&& post.multi_press_timeout_ms == pre.multi_press_timeout_ms
                    },
                    None => post == (TextInputHelper { last_input_ms: now_ms, ..pre }),
                }
            },
        }
    }
}

/// How one time slice steps the editor: once the multi-tap timeout has
/// elapsed with a candidate sequence active, the previewed character is
/// committed and the sequence cleared; otherwise nothing happens.
pub open spec fn text_tick_steps(
    pre: TextInputHelper,
    post: TextInputHelper,
    now_ms: u64,
    r: GuiAction,
) -> bool {
    if spec_elapsed_ms(pre.last_input_ms, now_ms) > pre.multi_press_timeout_ms
        && pre.multi_press_sequence@.len() != 0 {
        &&& post.text@ == pre.text@.push(pre.pending_char())
        &&& post.multi_press_sequence@ == Seq::<char>::empty()
        &&& post.multi_press_count == 0
        &&& post.last_input_ms == now_ms
        &&& post.prompt == pre.prompt
        &&& post.keyboard == pre.keyboard
        &&& post.multi_press_timeout_ms == pre.multi_press_timeout_ms
        &&& r == GuiAction::ScreenUpdated
    } else {
        post == pre && r == GuiAction::Nothing
    }
}

/// What the editor's render pass shows for a given editor state: the
/// prompt, the committed text, and the previewed character if a
/// candidate sequence is active.
pub open spec fn text_layout_matches(h: TextInputHelper, r: TextLayout) -> bool {
    &&& r.prompt == h.prompt
    &&& r.committed == h.text
    &&& r.preview == (if h.multi_press_sequence@.len() > 0 {
        Some(h.pending_char())
    } else {
        None::<char>
    })
}

/// The candidate sequence for one key press, as a fresh string.
fn key_sequence(keyboard: KeyboardType, input: UserInput) -> (r: Option<String>)
    requires
        keyboard != KeyboardType::Numbers,
        input.valid(),
    ensures
        r is Some <==> spec_key_sequence(keyboard, input) is Some,
        r matches Some(s) ==> spec_key_sequence(keyboard, input) == Some(s@),
        r matches Some(s) ==> 1 <= s@.len() <= 8,
{
    proof {
        reveal_strlit(" ");
        reveal_strlit(".,");
        reveal_strlit("abcABC");
        reveal_strlit("defDEF");
        reveal_strlit("ghiGHI");
        reveal_strlit("jklJKL");
        reveal_strlit("mnoMNO");
        reveal_strlit("pqrsPQRS");
        reveal_strlit("tuvTUV");
        reveal_strlit("wxyzWXYZ");
        reveal_strlit("ABCabc");
        reveal_strlit("DEFdef");
        reveal_strlit("GHIghi");
        reveal_strlit("JKLjkl");
        reveal_strlit("MNOmno");
        reveal_strlit("PQRSpqrs");
        reveal_strlit("TUVtuv");
        reveal_strlit("WXYZwxyz");
        reveal_strlit("+-*/");
        reveal_strlit("#");
    }
    match input {
        UserInput::Number(num) => Some(
            if matches!(keyboard, KeyboardType::TextStartCaps) {
                if num == 0 {
                    String::from_str(" ")
                } else if num == 1 {
                    String::from_str(".,")
                } else if num == 2 {
                    String::from_str("ABCabc")
                } else if num == 3 {
                    String::from_str("DEFdef")
                } else if num == 4 {
                    String::from_str("GHIghi")
                } else if num == 5 {
                    String::from_str("JKLjkl")
                } else if num == 6 {
                    String::from_str("MNOmno")
                } else if num == 7 {
                    String::from_str("PQRSpqrs")
                } else if num == 8 {
                    String::from_str("TUVtuv")
                } else {
                    String::from_str("WXYZwxyz")
                }
            } else {
                if num == 0 {
                    String::from_str(" ")
                } else if num == 1 {
                    String::from_str(".,")
                } else if num == 2 {
                    String::from_str("abcABC")
                } else if num == 3 {
                    String::from_str("defDEF")
                } else if num == 4 {
                    String::from_str("ghiGHI")
                } else if num == 5 {
                    String::from_str("jklJKL")
                } else if num == 6 {
                    String::from_str("mnoMNO")
                } else if num == 7 {
                    String::from_str("pqrsPQRS")
                } else if num == 8 {
                    String::from_str("tuvTUV")
                } else {
                    String::from_str("wxyzWXYZ")
                }
            },
        ),
        UserInput::Star => Some(String::from_str("+-*/")),
        UserInput::Hash => Some(String::from_str("#")),
        _ => None,
    }
}

impl TextInputHelper {
    pub fn new(
        prompt: String,
        initial_text: String,
        keyboard: KeyboardType,
        timeout_ms: u64,
        now_ms: u64,
    ) -> (r: TextInputHelper)
        ensures
            r.prompt == prompt,
            r.text == initial_text,
            r.keyboard == keyboard,
            r.last_input_ms == now_ms,
            r.multi_press_timeout_ms == timeout_ms,
            r.multi_press_count == 0,
            r.multi_press_sequence@ == Seq::<char>::empty(),
            r.wf(),
    {
        TextInputHelper {
            prompt,
            text: initial_text,
            keyboard,
            last_input_ms: now_ms,
            multi_press_timeout_ms: timeout_ms,
            multi_press_count: 0,
            multi_press_sequence: String::new(),
        }
    }

    /// Commits the previewed character once the multi-tap timeout has
    /// elapsed since the last key press.
    pub fn tick(&mut self, now_ms: u64) -> (r: GuiAction)
        requires
            old(self).wf(),
        ensures
            final(self).wf(),
            text_tick_steps(*old(self), *final(self), now_ms, r),
    {
        let seq_len = self.multi_press_sequence.as_str().unicode_len();
        if elapsed_ms(self.last_input_ms, now_ms) > self.multi_press_timeout_ms && seq_len != 0 {
            self.last_input_ms = now_ms;
            let c = self.multi_press_sequence.as_str().get_char(self.multi_press_count as usize);
            self.text.push(c);
            self.multi_press_sequence = String::new();
            self.multi_press_count = 0;
            GuiAction::ScreenUpdated
        } else {
            GuiAction::Nothing
        }
    }

    /// One key press against the editor; `now_ms` is the press's time,
    /// which restarts the multi-tap window in the alphabetic modes.
    pub fn process_input(&mut self, input: UserInput, now_ms: u64) -> (r: Option<TextInputResult>)
        requires
            old(self).wf(),
            input.valid(),
        ensures
            final(self).wf(),
            text_steps(*old(self), *final(self), input, now_ms, r),
    {
        if self.keyboard == KeyboardType::Numbers {
            match input {
                UserInput::Number(num) => {
                    self.text.push(digit_char(num));
                    None
                },
                UserInput::SoftKey => Some(TextInputResult::Edited(self.text.clone())),
                UserInput::Call => Some(TextInputResult::Canceled),
                _ => None,
            }
        } else {
            match input {
                UserInput::SoftKey => {
                    return Some(TextInputResult::Edited(self.text.clone()));
                },
                UserInput::Call => {
                    return Some(TextInputResult::Canceled);
                },
                _ => {},
            }
            let next_seq = key_sequence(self.keyboard, input);
            self.last_input_ms = now_ms;
            match next_seq {
                Some(next) => {
                    if next == self.multi_press_sequence {
                        self.multi_press_count = self.multi_press_count + 1;
                        let seq_len = self.multi_press_sequence.as_str().unicode_len();
                        if (self.multi_press_count as usize) >= seq_len {
                            self.multi_press_count = 0;
                        }
                        None
                    } else {
                        let cur_len = self.multi_press_sequence.as_str().unicode_len();
                        if cur_len > 0 {
                            let c = self.multi_press_sequence.as_str().get_char(
                                self.multi_press_count as usize,
                            );
                            self.text.push(c);
                            proof {
                                assert(self.text@ =~= old(self).text@ + seq![
                                    old(self).pending_char(),
                                ]);
                            }
                        } else {
                            proof {
                                assert(self.text@ =~= old(self).text@ + Seq::<char>::empty());
                            }
                        }
                        self.multi_press_sequence = next;
                        self.multi_press_count = 0;
                        None
                    }
                },
                None => None,
            }
        }
    }

    /// The render pass of the editor: the prompt, the committed text,
    /// and the previewed character if one is pending.
    pub fn layout(&self) -> (r: TextLayout)
        requires
            self.wf(),
        ensures
            text_layout_matches(*self, r),
    {
        let seq_len = self.multi_press_sequence.as_str().unicode_len();
        let preview = if seq_len > 0 {
            Some(self.multi_press_sequence.as_str().get_char(self.multi_press_count as usize))
        } else {
            None
        };
        TextLayout { prompt: self.prompt.clone(), committed: self.text.clone(), preview }
    }
}

impl GuiElement for TextInputHelper {
    open spec fn render_ready(&self, metrics: ScreenMetrics) -> bool {
        self.wf()
    }

    fn render(&mut self, metrics: &ScreenMetrics) -> (r: RenderModel) {
        RenderModel::TextView(self.layout())
    }
}

} // verus!
