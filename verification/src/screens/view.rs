//! The agent-details screen: what is known about the deployed agent and its
//! recent posts, and whether a fetch is still in flight.

use vstd::prelude::*;

use crate::client::{AgentInfo, MoltbookPost};

verus! {

/// State of the agent-details screen.
pub struct ViewScreen {
    pub agent_info: Option<AgentInfo>,
    pub posts: Vec<MoltbookPost>,
    pub loading: bool,
    pub error: Option<String>,
}

impl ViewScreen {
    pub fn new() -> (r: ViewScreen)
        ensures
            r.agent_info is None,
            r.posts@ =~= Seq::<MoltbookPost>::empty(),
            !r.loading,
            r.error is None,
    {
        ViewScreen { agent_info: None, posts: Vec::new(), loading: false, error: None }
    }

    /// Clear the screen and mark a fetch as in flight.
    pub fn reset(&mut self)
        ensures
            final(self).agent_info is None,
            final(self).posts@ =~= Seq::<MoltbookPost>::empty(),
            final(self).loading,
            final(self).error is None,
    {
        self.agent_info = None;
        self.posts.clear();
        self.loading = true;
        self.error = None;
    }

    /// Record fetched agent details; the fetch is over once they are here.
    pub fn handle_agent_info(&mut self, info: AgentInfo)
        ensures
            final(self).agent_info == Some(info),
            !final(self).loading,
            final(self).posts == old(self).posts,
            final(self).error == old(self).error,
    {
        self.agent_info = Some(info);
        self.check_loading_done();
    }

    /// Record fetched posts; the fetch stays in flight until the agent
    /// details are here too.
    pub fn handle_posts(&mut self, posts: Vec<MoltbookPost>)
        ensures
            final(self).posts == posts,
            final(self).loading == (old(self).loading && old(self).agent_info is None),
            final(self).agent_info == old(self).agent_info,
            final(self).error == old(self).error,
    {
        self.posts = posts;
        self.check_loading_done();
    }

    /// Record a failed fetch.
    pub fn handle_fetch_error(&mut self, error: String)
        ensures
            final(self).error == Some(error),
            !final(self).loading,
            final(self).agent_info == old(self).agent_info,
            final(self).posts == old(self).posts,
    {
        self.error = Some(error);
        self.loading = false;
    }

    /// The fetch is done once the agent details are in; posts may follow or
    /// be empty.
    fn check_loading_done(&mut self)
        ensures
            final(self).loading == (old(self).loading && old(self).agent_info is None),
            final(self).agent_info == old(self).agent_info,
            final(self).posts == old(self).posts,
            final(self).error == old(self).error,
    {
        if self.agent_info.is_some() {
            self.loading = false;
        }
    }
}

} // verus!
