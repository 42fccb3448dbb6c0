//! Subagents: what each is doing and the scrolled list of them.

use vstd::prelude::*;
use vstd::utf8::{encode_utf8, is_char_boundary};

use crate::chars::{byte_len, byte_prefix, spec_byte_prefix};
use crate::clock::now_micros;
use crate::state::color::Color;
use crate::text::{concat, owned, str_eq};

verus! {

/// Where a subagent stands.
#[derive(Debug, Clone, Copy, PartialEq, Eq, Structural)]
pub enum SubagentStatus {
    Running,
    Completed,
    Failed,
    Pending,
    Idle,
}

/// How a status icon is drawn.
#[derive(Debug, Clone, Copy, PartialEq, Eq, Structural)]
pub struct IconStyle {
    pub fg: Color,
    pub bold: bool,
}

/// One subagent.
#[derive(Debug, Clone, PartialEq, Eq)]
pub struct SubagentInfo {
    pub id: String,
    pub status: SubagentStatus,
    pub goal: String,
    pub summary: Option<String>,
    pub parent_id: Option<String>,
    /// When it started, in microseconds since the Unix epoch (UTC).
    pub started_at: Option<i64>,
    /// When it finished, in microseconds since the Unix epoch (UTC).
    pub completed_at: Option<i64>,
}

/// The icon and style of each status.
pub open spec fn spec_status_style(s: SubagentStatus) -> (Seq<char>, IconStyle) {
    match s {
        SubagentStatus::Running => (" ▶ "@, IconStyle { fg: Color::Yellow, bold: true }),
        SubagentStatus::Completed => (" ✓ "@, IconStyle { fg: Color::Green, bold: false }),
        SubagentStatus::Failed => (" ✗ "@, IconStyle { fg: Color::Red, bold: true }),
        SubagentStatus::Pending => (" ○ "@, IconStyle { fg: Color::DarkGray, bold: false }),
        SubagentStatus::Idle => (" − "@, IconStyle { fg: Color::DarkGray, bold: false }),
    }
}

impl SubagentInfo {
    /// A running subagent, started now.
    pub fn new(id: &str, goal: &str, parent_id: Option<String>) -> (r: Self)
        ensures
            r.id@ == id@,
            r.status == SubagentStatus::Running,
            r.goal@ == goal@,
            r.summary is None,
            r.parent_id == parent_id,
            r.started_at is Some,
            r.completed_at is None,
    {
        SubagentInfo {
            id: owned(id),
            status: SubagentStatus::Running,
            goal: owned(goal),
            summary: None,
            parent_id,
            started_at: Some(now_micros()),
            completed_at: None,
        }
    }

    /// Mark completed with a summary, noting the time.
    pub fn mark_completed(&mut self, summary: &str)
        ensures
            final(self).status == SubagentStatus::Completed,
            final(self).summary matches Some(s) && s@ == summary@,
            final(self).completed_at is Some,
            *final(self) == (SubagentInfo {
                status: SubagentStatus::Completed,
                summary: final(self).summary,
                completed_at: final(self).completed_at,
                ..*old(self)
            }),
    {
        self.status = SubagentStatus::Completed;
        self.summary = Some(owned(summary));
        self.completed_at = Some(now_micros());
    }

    /// Mark failed, noting the time.
    pub fn mark_failed(&mut self)
        ensures
            final(self).completed_at is Some,
            *final(self) == (SubagentInfo {
                status: SubagentStatus::Failed,
                completed_at: final(self).completed_at,
                ..*old(self)
            }),
    {
        self.status = SubagentStatus::Failed;
        self.completed_at = Some(now_micros());
    }

    /// A copy of this subagent.
    pub fn duplicate(&self) -> (r: Self)
        ensures
            r == *self,
    {
        SubagentInfo {
            id: self.id.clone(),
            status: self.status,
            goal: self.goal.clone(),
            summary: match &self.summary { Some(x) => Some(x.clone()), None => None },
            parent_id: match &self.parent_id { Some(x) => Some(x.clone()), None => None },
            started_at: self.started_at,
            completed_at: self.completed_at,
        }
    }

    /// The status icon and its style.
    pub fn status_style(&self) -> (r: (&'static str, IconStyle))
        ensures
            (r.0@, r.1) == spec_status_style(self.status),
    {
        match self.status {
            SubagentStatus::Running => (" ▶ ", IconStyle { fg: Color::Yellow, bold: true }),
            SubagentStatus::Completed => (" ✓ ", IconStyle { fg: Color::Green, bold: false }),
            SubagentStatus::Failed => (" ✗ ", IconStyle { fg: Color::Red, bold: true }),
            SubagentStatus::Pending => (" ○ ", IconStyle { fg: Color::DarkGray, bold: false }),
            SubagentStatus::Idle => (" − ", IconStyle { fg: Color::DarkGray, bold: false }),
        }
    }
}

/// Goals longer than this many bytes are shortened in a list line.
pub const GOAL_LIMIT: usize = 40;

/// Summaries longer than this many bytes are shortened in a list line.
pub const SUMMARY_LIMIT: usize = 30;

/// `s` shortened to `limit - 3` bytes and an ellipsis when it is longer
/// than `limit` bytes.
pub open spec fn spec_shortened(s: Seq<char>, limit: usize) -> Seq<char> {
    if encode_utf8(s).len() > limit {
        spec_byte_prefix(s, limit - 3) + "..."@
    } else {
        s
    }
}

/// Whether `s` can be shortened where `spec_shortened` needs.
pub open spec fn spec_shorten_ok(s: Seq<char>, limit: usize) -> bool {
    encode_utf8(s).len() > limit ==> is_char_boundary(encode_utf8(s), limit - 3)
}

/// The texts of one line of the subagent list.
#[derive(Debug, Clone, PartialEq, Eq)]
pub struct AgentLine {
    /// The status icon.
    pub icon: String,
    /// The icon's style.
    pub icon_style: IconStyle,
    /// Whether the subagent has a parent (drawn as a branch).
    pub has_parent: bool,
    /// The subagent's identifier.
    pub id: String,
    /// ": " and the goal, shortened.
    pub goal: String,
    /// " → " and the summary, shortened, where there is one.
    pub summary: Option<String>,
}

fn shortened(s: &str, limit: usize) -> (r: String)
    requires
        3 <= limit,
        spec_shorten_ok(s@, limit),
    ensures
        r@ == spec_shortened(s@, limit),
{
    if byte_len(s) > limit {
        let head = byte_prefix(s, limit - 3);
        concat(head, "...")
    } else {
        owned(s)
    }
}

/// The subagents, in order of arrival, and how the list is scrolled.
#[derive(Debug, Clone)]
pub struct SubagentList {
    agents: Vec<SubagentInfo>,
    scroll: u16,
    visible_height: u16,
    auto_scroll: bool,
}

/// Whether a subagent counts as active.
pub open spec fn spec_is_active(a: SubagentInfo) -> bool {
    a.status == SubagentStatus::Running || a.status == SubagentStatus::Pending
}

/// How many subagents of `s` are active.
pub open spec fn spec_active_count(s: Seq<SubagentInfo>) -> nat
    decreases s.len(),
{
    if s.len() == 0 {
        0
    } else {
        spec_active_count(s.drop_last()) + if spec_is_active(s.last()) { 1nat } else { 0nat }
    }
}

/// The last position of a running subagent, if any.
pub open spec fn spec_last_running(s: Seq<SubagentInfo>) -> Option<int>
    decreases s.len(),
{
    if s.len() == 0 {
        None
    } else if s.last().status == SubagentStatus::Running {
        Some(s.len() - 1)
    } else {
        spec_last_running(s.drop_last())
    }
}

/// `a - b`, or zero when `b` is larger.
pub open spec fn spec_sat_sub(a: int, b: int) -> int {
    if a >= b { a - b } else { 0 }
}

/// The scroll that shows the latest running subagent at the bottom, or the
/// last subagents when none runs.
pub open spec fn spec_scroll_latest(s: Seq<SubagentInfo>, scroll: u16, height: u16) -> u16 {
    match spec_last_running(s) {
        Some(i) => (spec_sat_sub(i, spec_sat_sub(height as int, 1)) as usize) as u16,
        None => if s.len() > 0 { (spec_sat_sub(s.len() as int, height as int) as usize) as u16 } else { scroll },
    }
}

/// `s` with `x` in place of the first subagent of its identifier, or at the
/// end.
pub open spec fn spec_upsert_agent(s: Seq<SubagentInfo>, x: SubagentInfo) -> Seq<SubagentInfo> {
    if exists|i: int| 0 <= i < s.len() && (#[trigger] s[i]).id@ == x.id@ {
        s.update(choose|i: int| 0 <= i < s.len() && s[i].id@ == x.id@ && forall|j: int| 0 <= j < i ==> (#[trigger] s[j]).id@ != x.id@, x)
    } else {
        s.push(x)
    }
}

/// `s` without the subagents with identifier `id`, in order.
pub open spec fn spec_without(s: Seq<SubagentInfo>, id: Seq<char>) -> Seq<SubagentInfo>
    decreases s.len(),
{
    if s.len() == 0 {
        s
    } else if s.last().id@ == id {
        spec_without(s.drop_last(), id)
    } else {
        spec_without(s.drop_last(), id).push(s.last())
    }
}

impl Default for SubagentList {
    fn default() -> (r: Self)
        ensures
            r.all() == Seq::<SubagentInfo>::empty(),
            r.scroll() == 0 && r.height() == 0 && r.follows(),
    {
        SubagentList::new()
    }
}

impl SubagentList {
    pub closed spec fn all(&self) -> Seq<SubagentInfo> {
        self.agents@
    }

    pub closed spec fn scroll(&self) -> u16 {
        self.scroll
    }

    pub closed spec fn height(&self) -> u16 {
        self.visible_height
    }

    /// Whether the list follows the latest running subagent.
    pub closed spec fn follows(&self) -> bool {
        self.auto_scroll
    }

    /// An empty list that follows the latest running subagent.
    pub fn new() -> (r: Self)
        ensures
            r.all() == Seq::<SubagentInfo>::empty(),
            r.scroll() == 0 && r.height() == 0 && r.follows(),
    {
        SubagentList { agents: Vec::new(), scroll: 0, visible_height: 0, auto_scroll: true }
    }

    /// Put a subagent in place of the one with its identifier, or add it;
    /// while following, scroll to the latest running subagent.
    pub fn upsert(&mut self, info: SubagentInfo)
        ensures
            final(self).all() == spec_upsert_agent(old(self).all(), info),
            final(self).height() == old(self).height(),
            final(self).follows() == old(self).follows(),
            final(self).scroll() == if old(self).follows() {
                spec_scroll_latest(final(self).all(), old(self).scroll(), old(self).height())
            } else {
                old(self).scroll()
            },
    {
        let ghost s = self.all();
        let mut i: usize = 0;
        while i < self.agents.len() && !str_eq(self.agents[i].id.as_str(), info.id.as_str())
            invariant
                i <= self.agents@.len(),
                self.agents@ == s,
                forall|j: int| 0 <= j < i ==> (#[trigger] s[j]).id@ != info.id@,
            decreases self.agents@.len() - i,
        {
            i = i + 1;
        }
        if i < self.agents.len() {
            proof {
                let k = choose|k: int| 0 <= k < s.len() && s[k].id@ == info.id@ && forall|j: int| 0 <= j < k ==> (#[trigger] s[j]).id@ != info.id@;
                assert(0 <= i < s.len() && s[i as int].id@ == info.id@);
                if k < i {
                    assert(s[k].id@ != info.id@);
                } else if k > i {
                    assert(s[i as int].id@ != info.id@);
                }
            }
            self.agents.set(i, info);
        } else {
            self.agents.push(info);
        }
        if self.auto_scroll {
            self.scroll_to_latest();
        }
    }

    /// Remove every subagent with identifier `id`.
    pub fn remove(&mut self, id: &str)
        ensures
            final(self).all() == spec_without(old(self).all(), id@),
            final(self).scroll() == old(self).scroll(),
            final(self).height() == old(self).height(),
            final(self).follows() == old(self).follows(),
    {
        let ghost s = self.all();
        let mut kept: Vec<SubagentInfo> = Vec::new();
        let mut i: usize = 0;
        while i < self.agents.len()
            invariant
                i <= self.agents@.len(),
                self.agents@ == s,
                kept@ == spec_without(s.take(i as int), id@),
            decreases self.agents@.len() - i,
        {
            proof {
                assert(s.take(i + 1).drop_last() =~= s.take(i as int));
            }
            if !str_eq(self.agents[i].id.as_str(), id) {
                kept.push(self.agents[i].duplicate());
            }
            i = i + 1;
        }
        proof {
            assert(s.take(s.len() as int) =~= s);
        }
        self.agents = kept;
    }

    /// Remove every subagent and scroll to the top.
    pub fn clear(&mut self)
        ensures
            final(self).all() == Seq::<SubagentInfo>::empty(),
            final(self).scroll() == 0,
            final(self).height() == old(self).height(),
            final(self).follows() == old(self).follows(),
    {
        self.agents.clear();
        self.scroll = 0;
    }

    /// How many subagents are running or pending.
    pub fn active_count(&self) -> (r: usize)
        ensures
            r == spec_active_count(self.all()),
    {
        let mut n: usize = 0;
        let mut i: usize = 0;
        while i < self.agents.len()
            invariant
                i <= self.agents@.len(),
                n == spec_active_count(self.all().take(i as int)),
                n <= i,
            decreases self.agents@.len() - i,
        {
            proof {
                assert(self.all().take(i + 1).drop_last() =~= self.all().take(i as int));
            }
            let st = self.agents[i].status;
            if st == SubagentStatus::Running || st == SubagentStatus::Pending {
                n = n + 1;
            }
            i = i + 1;
        }
        proof {
            assert(self.all().take(self.all().len() as int) =~= self.all());
        }
        n
    }

    /// How many subagents there are.
    pub fn total_count(&self) -> (r: usize)
        ensures
            r == self.all().len(),
    {
        self.agents.len()
    }

    pub fn is_empty(&self) -> (r: bool)
        ensures
            r == (self.all().len() == 0),
    {
        self.agents.len() == 0
    }

    /// Scroll so that the latest running subagent shows at the bottom, or
    /// the last subagents when none runs.
    pub fn scroll_to_latest(&mut self)
        ensures
            final(self).all() == old(self).all(),
            final(self).scroll() == spec_scroll_latest(old(self).all(), old(self).scroll(), old(self).height()),
            final(self).height() == old(self).height(),
            final(self).follows() == old(self).follows(),
    {
        let mut i: usize = self.agents.len();
        proof {
            assert(self.all().take(i as int) =~= self.all());
        }
        while i > 0 && self.agents[i - 1].status != SubagentStatus::Running
            invariant
                i <= self.agents@.len(),
                spec_last_running(self.all()) == spec_last_running(self.all().take(i as int)),
            decreases i,
        {
            proof {
                assert(self.all().take(i as int).drop_last() =~= self.all().take(i - 1));
            }
            i = i - 1;
        }
        if i > 0 {
            proof {
                assert(self.all().take(i as int).last() == self.all()[i - 1]);
            }
            let idx = i - 1;
            let h = self.visible_height.saturating_sub(1) as usize;
            #[verifier::truncate]
            let sc = idx.saturating_sub(h) as u16;
            self.scroll = sc;
        } else if self.agents.len() > 0 {
            proof {
                assert(self.all().take(0) =~= Seq::<SubagentInfo>::empty());
            }
            #[verifier::truncate]
            let sc = self.agents.len().saturating_sub(self.visible_height as usize) as u16;
            self.scroll = sc;
        } else {
            proof {
                assert(self.all().take(0) =~= Seq::<SubagentInfo>::empty());
            }
        }
    }

    /// Scroll up one line and stop following.
    pub fn scroll_up(&mut self)
        ensures
            final(self).all() == old(self).all(),
            final(self).scroll() == spec_sat_sub(old(self).scroll() as int, 1),
            final(self).height() == old(self).height(),
            !final(self).follows(),
    {
        self.scroll = self.scroll.saturating_sub(1);
        self.auto_scroll = false;
    }

    /// Scroll down one line, no further than the last page, and stop
    /// following.
    pub fn scroll_down(&mut self)
        requires
            old(self).scroll() < u16::MAX,
        ensures
            final(self).all() == old(self).all(),
            final(self).scroll() == ({
                let max = (spec_sat_sub(old(self).all().len() as int, old(self).height() as int) as usize) as u16;
                if old(self).scroll() + 1 <= max { (old(self).scroll() + 1) as u16 } else { max }
            }),
            final(self).height() == old(self).height(),
            !final(self).follows(),
    {
        #[verifier::truncate]
        let max_scroll = self.agents.len().saturating_sub(self.visible_height as usize) as u16;
        let next = self.scroll + 1;
        self.scroll = if next <= max_scroll { next } else { max_scroll };
        self.auto_scroll = false;
    }

    pub fn set_visible_height(&mut self, height: u16)
        ensures
            final(self).all() == old(self).all(),
            final(self).scroll() == old(self).scroll(),
            final(self).height() == height,
            final(self).follows() == old(self).follows(),
    {
        self.visible_height = height;
    }

    /// The first visible position.
    pub fn scroll_offset(&self) -> (r: u16)
        ensures
            r == self.scroll(),
    {
        self.scroll
    }

    pub fn agents(&self) -> (r: &[SubagentInfo])
        ensures
            r@ == self.all(),
    {
        self.agents.as_slice()
    }

    pub fn agents_mut(&mut self) -> (r: &mut Vec<SubagentInfo>)
        ensures
            r@ == old(self).all(),
            final(self).all() == final(r)@,
            final(self).scroll() == old(self).scroll(),
            final(self).height() == old(self).height(),
            final(self).follows() == old(self).follows(),
    {
        &mut self.agents
    }

    /// The texts of the list line for a subagent: its icon, a branch when it
    /// has a parent, its identifier, its goal and its summary, shortened.
    pub fn build_agent_line(&self, agent: &SubagentInfo) -> (r: AgentLine)
        requires
            spec_shorten_ok(agent.goal@, GOAL_LIMIT),
            agent.summary matches Some(s) ==> spec_shorten_ok(s@, SUMMARY_LIMIT),
        ensures
            (r.icon@, r.icon_style) == spec_status_style(agent.status),
            r.has_parent == agent.parent_id is Some,
            r.id@ == agent.id@,
            r.goal@ == ": "@ + spec_shortened(agent.goal@, GOAL_LIMIT),
            match agent.summary {
                Some(s) => r.summary matches Some(t) && t@ == " → "@ + spec_shortened(s@, SUMMARY_LIMIT),
                None => r.summary is None,
            },
    {
        let (icon, icon_style) = agent.status_style();
        let g = shortened(agent.goal.as_str(), GOAL_LIMIT);
        let goal = concat(": ", g.as_str());
        let summary = match &agent.summary {
            Some(s) => {
                let t = shortened(s.as_str(), SUMMARY_LIMIT);
                Some(concat(" → ", t.as_str()))
            },
            None => None,
        };
        AgentLine {
            icon: owned(icon),
            icon_style,
            has_parent: agent.parent_id.is_some(),
            id: agent.id.clone(),
            goal,
            summary,
        }
    }
}

} // verus!
