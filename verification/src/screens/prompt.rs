//! The prompt screen: submitting a prompt to the deployed agent and
//! following the run's event stream as a conversation.

use vstd::prelude::*;

use crate::client::{ChainEventData, ChatMessage};
use crate::textutil::{dec_str_of, u64_to_dec};

verus! {

/// Where the prompt flow stands.
#[derive(Debug, Clone, PartialEq, Eq, Structural)]
pub enum PromptStep {
    EnterPrompt,
    Submitting,
    Running,
    Complete,
}

/// One tool the run has started, and whether it finished.
#[derive(Debug, Clone)]
pub struct ToolStatus {
    pub name: String,
    pub completed: bool,
}

/// State of the prompt screen.
pub struct PromptScreen {
    pub step: PromptStep,
    pub input_buffer: String,
    pub run_id: Option<u64>,
    /// Accumulated chat messages from the conversation.
    pub chat_messages: Vec<ChatMessage>,
    /// Currently running or recently completed tools.
    pub tool_status: Vec<ToolStatus>,
    /// Final output from the agent.
    pub final_output: Option<String>,
    /// Status lines for feedback.
    pub status_messages: Vec<String>,
    /// Error message, if any.
    pub error: Option<String>,
    /// Whether detailed tool data is shown.
    pub detailed_view: bool,
    /// Scroll offset for the conversation.
    pub scroll_offset: u16,
}

/// How many status lines are kept; older ones fall off the front.
pub const STATUS_LINES_KEPT: usize = 10;

/// The new status list is the old one with one line of the given text at
/// the end.
pub open spec fn pushed_msg(pre: Seq<String>, post: Seq<String>, text: Seq<char>) -> bool {
    &&& post.len() == pre.len() + 1
    &&& post.take(pre.len() as int) == pre
    &&& post.last()@ == text
}

/// Everything but the status lines is as it was.
pub open spec fn same_but_status(pre: PromptScreen, post: PromptScreen) -> bool {
    &&& post.step == pre.step
    &&& post.input_buffer == pre.input_buffer
    &&& post.run_id == pre.run_id
    &&& post.chat_messages == pre.chat_messages
    &&& post.tool_status == pre.tool_status
    &&& post.final_output == pre.final_output
    &&& post.error == pre.error
    &&& post.detailed_view == pre.detailed_view
    &&& post.scroll_offset == pre.scroll_offset
}

/// Everything but the chat messages is as it was.
pub open spec fn same_but_chat(pre: PromptScreen, post: PromptScreen) -> bool {
    &&& post.step == pre.step
    &&& post.input_buffer == pre.input_buffer
    &&& post.run_id == pre.run_id
    &&& post.status_messages == pre.status_messages
    &&& post.tool_status == pre.tool_status
    &&& post.final_output == pre.final_output
    &&& post.error == pre.error
    &&& post.detailed_view == pre.detailed_view
    &&& post.scroll_offset == pre.scroll_offset
}

/// Everything but the tool list is as it was.
pub open spec fn same_but_tools(pre: PromptScreen, post: PromptScreen) -> bool {
    &&& post.step == pre.step
    &&& post.input_buffer == pre.input_buffer
    &&& post.run_id == pre.run_id
    &&& post.chat_messages == pre.chat_messages
    &&& post.status_messages == pre.status_messages
    &&& post.final_output == pre.final_output
    &&& post.error == pre.error
    &&& post.detailed_view == pre.detailed_view
    &&& post.scroll_offset == pre.scroll_offset
}

/// Nothing changed.
pub open spec fn prompt_unchanged(pre: PromptScreen, post: PromptScreen) -> bool {
    same_but_status(pre, post) && post.status_messages == pre.status_messages
}

/// Whether some tool in the list carries this name.
pub open spec fn has_tool_named(ts: Seq<ToolStatus>, name: Seq<char>) -> bool {
    exists|i: int| 0 <= i < ts.len() && #[trigger] ts[i].name@ == name
}

/// Whether some string in the list spells this name.
pub open spec fn names_contain(tools: Seq<String>, name: Seq<char>) -> bool {
    exists|i: int| 0 <= i < tools.len() && #[trigger] tools[i]@ == name
}

/// The tool list after the given names are appended, each as a not-yet
/// completed tool, skipping names already present.
pub open spec fn with_tools_added(ts: Seq<ToolStatus>, tools: Seq<String>) -> Seq<ToolStatus>
    decreases tools.len(),
{
    if tools.len() == 0 {
        ts
    } else {
        let t = tools[0];
        let ts1 = if has_tool_named(ts, t@) {
            ts
        } else {
            ts.push(ToolStatus { name: t, completed: false })
        };
        with_tools_added(ts1, tools.drop_first())
    }
}

/// Adding names one more at the end is one more step of the fold.
proof fn lemma_with_tools_added_push(ts: Seq<ToolStatus>, tools: Seq<String>, t: String)
    ensures
        with_tools_added(ts, tools.push(t)) == {
            let base = with_tools_added(ts, tools);
            if has_tool_named(base, t@) {
                base
            } else {
                base.push(ToolStatus { name: t, completed: false })
            }
        },
    decreases tools.len(),
{
    reveal_with_fuel(with_tools_added, 3);
    if tools.len() == 0 {
        assert(tools.push(t)[0] == t);
        assert(tools.push(t).drop_first() =~= Seq::<String>::empty());
        let ts1 = if has_tool_named(ts, t@) {
            ts
        } else {
            ts.push(ToolStatus { name: t, completed: false })
        };
        assert(with_tools_added(ts, tools.push(t)) == with_tools_added(
            ts1,
            tools.push(t).drop_first(),
        ));
        assert(with_tools_added(ts1, Seq::<String>::empty()) == ts1);
        assert(with_tools_added(ts, tools) == ts);
    } else {
        assert(tools.push(t)[0] == tools[0]);
        assert(tools.push(t).drop_first() =~= tools.drop_first().push(t));
        let ts1 = if has_tool_named(ts, tools[0]@) {
            ts
        } else {
            ts.push(ToolStatus { name: tools[0], completed: false })
        };
        assert(with_tools_added(ts, tools.push(t)) == with_tools_added(
            ts1,
            tools.drop_first().push(t),
        ));
        assert(with_tools_added(ts, tools) == with_tools_added(ts1, tools.drop_first()));
        lemma_with_tools_added_push(ts1, tools.drop_first(), t);
    }
}

/// `s` cut to `max` characters, with an ellipsis folded into the budget
/// where it had to be cut.
pub open spec fn truncated_of(s: Seq<char>, max: nat) -> Seq<char> {
    if s.len() <= max {
        s
    } else {
        s.take(if max >= 3 {
            (max - 3) as int
        } else {
            0
        }) + "..."@
    }
}

/// Raw event text is cut hard at fifty characters, an ellipsis appended.
pub open spec fn raw_data_of(data: Seq<char>) -> Seq<char> {
    if data.len() > 50 {
        data.take(50) + "..."@
    } else {
        data
    }
}

impl PromptScreen {
    pub fn new() -> (r: PromptScreen)
        ensures
            r.step == PromptStep::EnterPrompt,
            r.input_buffer@ =~= Seq::<char>::empty(),
            r.run_id is None,
            r.chat_messages@ =~= Seq::<ChatMessage>::empty(),
            r.tool_status@ =~= Seq::<ToolStatus>::empty(),
            r.final_output is None,
            r.status_messages@ =~= Seq::<String>::empty(),
            r.error is None,
            r.detailed_view,
            r.scroll_offset == 0,
    {
        PromptScreen {
            step: PromptStep::EnterPrompt,
            input_buffer: String::new(),
            run_id: None,
            chat_messages: Vec::new(),
            tool_status: Vec::new(),
            final_output: None,
            status_messages: Vec::new(),
            error: None,
            detailed_view: true,
            scroll_offset: 0,
        }
    }

    pub fn reset(&mut self)
        ensures
            final(self).step == PromptStep::EnterPrompt,
            final(self).input_buffer@ =~= Seq::<char>::empty(),
            final(self).run_id is None,
            final(self).chat_messages@ =~= Seq::<ChatMessage>::empty(),
            final(self).tool_status@ =~= Seq::<ToolStatus>::empty(),
            final(self).final_output is None,
            final(self).status_messages@ =~= Seq::<String>::empty(),
            final(self).error is None,
            final(self).detailed_view,
            final(self).scroll_offset == 0,
    {
        *self = PromptScreen::new();
    }

    /// Scroll up by `n` lines, stopping at the top.
    pub fn scroll_up(&mut self, n: u16)
        ensures
            final(self).scroll_offset == if old(self).scroll_offset >= n {
                (old(self).scroll_offset - n) as u16
            } else {
                0u16
            },
            same_but_scroll(*old(self), *final(self)),
    {
        if self.scroll_offset >= n {
            self.scroll_offset = self.scroll_offset - n;
        } else {
            self.scroll_offset = 0;
        }
    }

    /// Scroll down by `n` lines; the view clamps to the content when drawn.
    pub fn scroll_down(&mut self, n: u16)
        ensures
            final(self).scroll_offset == if old(self).scroll_offset as int + n as int
                <= u16::MAX as int {
                (old(self).scroll_offset + n) as u16
            } else {
                u16::MAX
            },
            same_but_scroll(*old(self), *final(self)),
    {
        if self.scroll_offset <= u16::MAX - n {
            self.scroll_offset = self.scroll_offset + n;
        } else {
            self.scroll_offset = u16::MAX;
        }
    }

    /// Handle one structured event from the run's stream.
    pub fn handle_chain_event(&mut self, event: ChainEventData)
        ensures
            match event {
                ChainEventData::RunStarted { agent_name, .. } => {
                    &&& pushed_msg(
                        old(self).status_messages@,
                        final(self).status_messages@,
                        "Agent '"@ + agent_name@ + "' started"@,
                    )
                    &&& same_but_status(*old(self), *final(self))
                },
                ChainEventData::Messages { messages, .. } => {
                    &&& final(self).chat_messages == messages
                    &&& same_but_chat(*old(self), *final(self))
                },
                ChainEventData::ToolsStarted { tools, .. } => {
                    &&& final(self).tool_status@ == with_tools_added(
                        old(self).tool_status@,
                        tools@,
                    )
                    &&& same_but_tools(*old(self), *final(self))
                },
                ChainEventData::ToolsCompleted { tools, .. } => {
                    &&& final(self).tool_status@.len() == old(self).tool_status@.len()
                    &&& forall|i: int|
                        0 <= i < old(self).tool_status@.len() ==> {
                            &&& (#[trigger] final(self).tool_status@[i]).name == old(
                                self,
                            ).tool_status@[i].name
                            &&& final(self).tool_status@[i].completed == (old(
                                self,
                            ).tool_status@[i].completed || names_contain(
                                tools@,
                                old(self).tool_status@[i].name@,
                            ))
                        }
                    &&& same_but_tools(*old(self), *final(self))
                },
                ChainEventData::WaitingForInput { reason, .. } => {
                    &&& pushed_msg(
                        old(self).status_messages@,
                        final(self).status_messages@,
                        "Waiting: "@ + reason@,
                    )
                    &&& same_but_status(*old(self), *final(self))
                },
                ChainEventData::Resumed { .. } => {
                    &&& pushed_msg(
                        old(self).status_messages@,
                        final(self).status_messages@,
                        "Run resumed"@,
                    )
                    &&& same_but_status(*old(self), *final(self))
                },
                ChainEventData::Routing { result, next_node, .. } => {
                    match next_node {
                        Some(node) => {
                            &&& pushed_msg(
                                old(self).status_messages@,
                                final(self).status_messages@,
                                "Routing: "@ + (if result {
                                    "true"@
                                } else {
                                    "false"@
                                }) + " -> node "@ + dec_str_of(node as nat),
                            )
                            &&& same_but_status(*old(self), *final(self))
                        },
                        None => prompt_unchanged(*old(self), *final(self)),
                    }
                },
                ChainEventData::Completed { output, .. } => {
                    &&& final(self).final_output == Some(output)
                    &&& same_but_output(*old(self), *final(self))
                },
                ChainEventData::Failed { reason, .. } => {
                    &&& final(self).error == Some(reason)
                    &&& same_but_error(*old(self), *final(self))
                },
                ChainEventData::Raw { variant, data } => {
                    &&& pushed_msg(
                        old(self).status_messages@,
                        final(self).status_messages@,
                        "["@ + variant@ + "] "@ + raw_data_of(data@),
                    )
                    &&& same_but_status(*old(self), *final(self))
                },
            },
    {
        match event {
            ChainEventData::RunStarted { agent_name, .. } => {
                let msg = String::from_str("Agent '").concat(agent_name.as_str()).concat(
                    "' started",
                );
                proof {
                    reveal_strlit("Agent '");
                    reveal_strlit("' started");
                }
                self.push_status(msg);
            },
            ChainEventData::Messages { messages, .. } => {
                self.chat_messages = messages;
            },
            ChainEventData::ToolsStarted { tools, .. } => {
                self.add_tools(tools);
            },
            ChainEventData::ToolsCompleted { tools, .. } => {
                self.complete_tools(&tools);
            },
            ChainEventData::WaitingForInput { reason, .. } => {
                let msg = String::from_str("Waiting: ").concat(reason.as_str());
                proof {
                    reveal_strlit("Waiting: ");
                }
                self.push_status(msg);
            },
            ChainEventData::Resumed { .. } => {
                let msg = String::from_str("Run resumed");
                self.push_status(msg);
            },
            ChainEventData::Routing { result, next_node, .. } => {
                match next_node {
                    Some(node) => {
                        let verdict = if result {
                            "true"
                        } else {
                            "false"
                        };
                        let msg = String::from_str("Routing: ").concat(verdict).concat(
                            " -> node ",
                        ).concat(u64_to_dec(node as u64).as_str());
                        proof {
                            reveal_strlit("Routing: ");
                            reveal_strlit(" -> node ");
                        }
                        self.push_status(msg);
                    },
                    None => {},
                }
            },
            ChainEventData::Completed { output, .. } => {
                self.final_output = Some(output);
            },
            ChainEventData::Failed { reason, .. } => {
                self.error = Some(reason);
            },
            ChainEventData::Raw { variant, data } => {
                let n = data.as_str().unicode_len();
                let shown = if n > 50 {
                    let head = data.as_str().substring_char(0, 50);
                    String::from_str(head).concat("...")
                } else {
                    data
                };
                let msg = String::from_str("[").concat(variant.as_str()).concat("] ").concat(
                    shown.as_str(),
                );
                proof {
                    reveal_strlit("[");
                    reveal_strlit("] ");
                }
                self.push_status(msg);
            },
        }
    }

    /// Record a plain status line, keeping only the most recent ones.
    pub fn handle_status_message(&mut self, msg: String)
        ensures
            final(self).status_messages@ == if old(self).status_messages@.len()
                < STATUS_LINES_KEPT {
                old(self).status_messages@.push(msg)
            } else {
                old(self).status_messages@.push(msg).drop_first()
            },
            same_but_status(*old(self), *final(self)),
    {
        self.status_messages.push(msg);
        if self.status_messages.len() > STATUS_LINES_KEPT {
            self.status_messages.remove(0);
            proof {
                assert(old(self).status_messages@.push(msg).remove(0) =~= old(
                    self,
                ).status_messages@.push(msg).drop_first());
            }
        }
    }

    /// The run was accepted: remember its id, watch it, and say so.
    pub fn handle_prompt_submitted(&mut self, run_id: u64)
        ensures
            final(self).run_id == Some(run_id),
            final(self).step == PromptStep::Running,
            pushed_msg(
                old(self).status_messages@,
                final(self).status_messages@,
                "Submitted! Run ID: "@ + dec_str_of(run_id as nat),
            ),
            final(self).input_buffer == old(self).input_buffer,
            final(self).chat_messages == old(self).chat_messages,
            final(self).tool_status == old(self).tool_status,
            final(self).final_output == old(self).final_output,
            final(self).error == old(self).error,
            final(self).detailed_view == old(self).detailed_view,
            final(self).scroll_offset == old(self).scroll_offset,
    {
        self.run_id = Some(run_id);
        self.step = PromptStep::Running;
        let msg = String::from_str("Submitted! Run ID: ").concat(u64_to_dec(run_id).as_str());
        proof {
            reveal_strlit("Submitted! Run ID: ");
        }
        self.status_messages.push(msg);
        proof {
            assert(final(self).status_messages@.take(old(self).status_messages@.len() as int)
                =~= old(self).status_messages@);
        }
    }

    /// The run finished with its output.
    pub fn handle_run_completed(&mut self, result: String)
        ensures
            final(self).step == PromptStep::Complete,
            final(self).final_output == Some(result),
            final(self).input_buffer == old(self).input_buffer,
            final(self).run_id == old(self).run_id,
            final(self).chat_messages == old(self).chat_messages,
            final(self).tool_status == old(self).tool_status,
            final(self).status_messages == old(self).status_messages,
            final(self).error == old(self).error,
            final(self).detailed_view == old(self).detailed_view,
            final(self).scroll_offset == old(self).scroll_offset,
    {
        self.step = PromptStep::Complete;
        self.final_output = Some(result);
    }

    /// The prompt flow failed.
    pub fn handle_prompt_failed(&mut self, error: String)
        ensures
            final(self).step == PromptStep::Complete,
            final(self).error == Some(error),
            final(self).input_buffer == old(self).input_buffer,
            final(self).run_id == old(self).run_id,
            final(self).chat_messages == old(self).chat_messages,
            final(self).tool_status == old(self).tool_status,
            final(self).status_messages == old(self).status_messages,
            final(self).final_output == old(self).final_output,
            final(self).detailed_view == old(self).detailed_view,
            final(self).scroll_offset == old(self).scroll_offset,
    {
        self.step = PromptStep::Complete;
        self.error = Some(error);
    }

    /// `s` cut to `max_len` characters with an ellipsis where it was cut.
    pub fn truncate_string(s: &str, max_len: usize) -> (r: String)
        ensures
            r@ == truncated_of(s@, max_len as nat),
    {
        let n = s.unicode_len();
        if n <= max_len {
            String::from_str(s)
        } else {
            let keep = if max_len >= 3 {
                max_len - 3
            } else {
                0
            };
            let head = s.substring_char(0, keep);
            String::from_str(head).concat("...")
        }
    }

    /// Append one status line; the cap on kept lines is the caller's
    /// business (`handle_status_message`).
    fn push_status(&mut self, msg: String)
        ensures
            pushed_msg(old(self).status_messages@, final(self).status_messages@, msg@),
            same_but_status(*old(self), *final(self)),
    {
        self.status_messages.push(msg);
        proof {
            assert(final(self).status_messages@.take(old(self).status_messages@.len() as int)
                =~= old(self).status_messages@);
        }
    }

    /// Append each name not yet listed as a tool still running.
    fn add_tools(&mut self, tools: Vec<String>)
        ensures
            final(self).tool_status@ == with_tools_added(old(self).tool_status@, tools@),
            same_but_tools(*old(self), *final(self)),
    {
        let n = tools.len();
        let mut i: usize = 0;
        proof {
            assert(tools@.take(0) =~= Seq::<String>::empty());
        }
        while i < n
            invariant
                i <= n,
                n == tools@.len(),
                self.tool_status@ == with_tools_added(old(self).tool_status@, tools@.take(i as int)),
                same_but_tools(*old(self), *self),
            decreases n - i,
        {
            let name = tools[i].clone();
            let present = self.has_tool(&name);
            if !present {
                self.tool_status.push(ToolStatus { name, completed: false });
            }
            proof {
                assert(tools@.take(i + 1) =~= tools@.take(i as int).push(tools@[i as int]));
                lemma_with_tools_added_push(
                    old(self).tool_status@,
                    tools@.take(i as int),
                    tools@[i as int],
                );
            }
            i = i + 1;
        }
        proof {
            assert(tools@.take(n as int) =~= tools@);
        }
    }

    /// Whether a tool of this name is already listed.
    fn has_tool(&self, name: &String) -> (r: bool)
        ensures
            r == has_tool_named(self.tool_status@, name@),
    {
        let n = self.tool_status.len();
        let mut j: usize = 0;
        while j < n
            invariant
                j <= n,
                n == self.tool_status@.len(),
                forall|k: int| 0 <= k < j ==> #[trigger] self.tool_status@[k].name@ != name@,
            decreases n - j,
        {
            if self.tool_status[j].name == *name {
                return true;
            }
            j = j + 1;
        }
        false
    }

    /// Mark every listed tool whose name appears among `tools` as completed.
    fn complete_tools(&mut self, tools: &Vec<String>)
        ensures
            final(self).tool_status@.len() == old(self).tool_status@.len(),
            forall|i: int|
                0 <= i < old(self).tool_status@.len() ==> {
                    &&& (#[trigger] final(self).tool_status@[i]).name == old(
                        self,
                    ).tool_status@[i].name
                    &&& final(self).tool_status@[i].completed == (old(
                        self,
                    ).tool_status@[i].completed || names_contain(
                        tools@,
                        old(self).tool_status@[i].name@,
                    ))
                },
            same_but_tools(*old(self), *final(self)),
    {
        let n = self.tool_status.len();
        let mut updated: Vec<ToolStatus> = Vec::new();
        let mut i: usize = 0;
        while i < n
            invariant
                i <= n,
                n == self.tool_status@.len(),
                self == old(self),
                updated@.len() == i,
                forall|k: int|
                    0 <= k < i ==> {
                        &&& (#[trigger] updated@[k]).name == old(self).tool_status@[k].name
                        &&& updated@[k].completed == (old(self).tool_status@[k].completed
                            || names_contain(tools@, old(self).tool_status@[k].name@))
                    },
            decreases n - i,
        {
            let listed = contains_name(tools, &self.tool_status[i].name);
            let done = self.tool_status[i].completed || listed;
            updated.push(ToolStatus { name: self.tool_status[i].name.clone(), completed: done });
            i = i + 1;
        }
        self.tool_status = updated;
    }
}

/// Everything but the scroll offset is as it was.
pub open spec fn same_but_scroll(pre: PromptScreen, post: PromptScreen) -> bool {
    &&& post.step == pre.step
    &&& post.input_buffer == pre.input_buffer
    &&& post.run_id == pre.run_id
    &&& post.chat_messages == pre.chat_messages
    &&& post.tool_status == pre.tool_status
    &&& post.final_output == pre.final_output
    &&& post.status_messages == pre.status_messages
    &&& post.error == pre.error
    &&& post.detailed_view == pre.detailed_view
}

/// Everything but the final output is as it was.
pub open spec fn same_but_output(pre: PromptScreen, post: PromptScreen) -> bool {
    &&& post.step == pre.step
    &&& post.input_buffer == pre.input_buffer
    &&& post.run_id == pre.run_id
    &&& post.chat_messages == pre.chat_messages
    &&& post.tool_status == pre.tool_status
    &&& post.status_messages == pre.status_messages
    &&& post.error == pre.error
    &&& post.detailed_view == pre.detailed_view
    &&& post.scroll_offset == pre.scroll_offset
}

/// Everything but the error is as it was.
pub open spec fn same_but_error(pre: PromptScreen, post: PromptScreen) -> bool {
    &&& post.step == pre.step
    &&& post.input_buffer == pre.input_buffer
    &&& post.run_id == pre.run_id
    &&& post.chat_messages == pre.chat_messages
    &&& post.tool_status == pre.tool_status
    &&& post.status_messages == pre.status_messages
    &&& post.final_output == pre.final_output
    &&& post.detailed_view == pre.detailed_view
    &&& post.scroll_offset == pre.scroll_offset
}

/// Whether some string in the vector equals this name.
fn contains_name(tools: &Vec<String>, name: &String) -> (r: bool)
    ensures
        r == names_contain(tools@, name@),
{
    let n = tools.len();
    let mut j: usize = 0;
    while j < n
        invariant
            j <= n,
            n == tools@.len(),
            forall|k: int| 0 <= k < j ==> #[trigger] tools@[k]@ != name@,
        decreases n - j,
    {
        if tools[j] == *name {
            return true;
        }
        j = j + 1;
    }
    false
}

} // verus!
