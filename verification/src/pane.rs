//! The three panes of the dashboard and the manager that owns them.

use vstd::prelude::*;
use vstd::string::StringExecFns;
use crate::event::{KeyCode, KeyEvent, KeyEventKind};
use crate::list::{ListModel, ListView, Movement, Record};
use crate::text::{decimal, texts, to_decimal};

verus! {

/// A node of the graph.
#[derive(Debug, Default, PartialEq, Eq)]
pub struct NodeData {
    pub name: String,
}

/// The mathematical content of a [`NodeData`].
pub struct NodeView {
    pub name: Seq<char>,
}

impl View for NodeData {
    type V = NodeView;

    open spec fn view(&self) -> NodeView {
        NodeView { name: self.name@ }
    }
}

impl Record for NodeData {
    open spec fn name_of(v: NodeView) -> Seq<char> {
        v.name
    }

    fn name(&self) -> (name: &String) {
        &self.name
    }

    fn matches(&self, other: &Self) -> (same: bool) {
        self.name == other.name
    }
}

/// A topic of the graph.
#[derive(Debug, Default, PartialEq, Eq)]
pub struct TopicData {
    pub name: String,
    pub msg_type: String,
    pub num_subscribers: u32,
}

/// The mathematical content of a [`TopicData`].
pub struct TopicView {
    pub name: Seq<char>,
    pub msg_type: Seq<char>,
    pub num_subscribers: u32,
}

impl TopicView {
    /// The cells of the topic's table row: its name, its message type and
    /// its subscriber count as a decimal numeral.
    pub open spec fn cells(self) -> Seq<Seq<char>> {
        seq![self.name, self.msg_type, decimal(self.num_subscribers as nat)]
    }
}

impl View for TopicData {
    type V = TopicView;

    open spec fn view(&self) -> TopicView {
        TopicView {
            name: self.name@,
            msg_type: self.msg_type@,
            num_subscribers: self.num_subscribers,
        }
    }
}

impl Record for TopicData {
    open spec fn name_of(v: TopicView) -> Seq<char> {
        v.name
    }

    fn name(&self) -> (name: &String) {
        &self.name
    }

    fn matches(&self, other: &Self) -> (same: bool) {
        self.name == other.name && self.msg_type == other.msg_type && self.num_subscribers
            == other.num_subscribers
    }
}

impl TopicData {
    /// The cells of the topic's table row.
    pub fn as_vec_string(&self) -> (cells: Vec<String>)
        ensures
            texts(cells@) == self@.cells(),
    {
        let mut cells: Vec<String> = Vec::new();
        cells.push(self.name.clone());
        cells.push(self.msg_type.clone());
        cells.push(to_decimal(self.num_subscribers));
        assert(texts(cells@) =~= self@.cells());
        cells
    }
}

/// The pane that lists the nodes of the graph.
pub struct NodePane {
    list: ListModel<NodeData>,
}

impl View for NodePane {
    type V = ListView<NodeView>;

    closed spec fn view(&self) -> ListView<NodeView> {
        self.list@
    }
}

impl NodePane {
    /// The invariant of the pane: no two nodes have the same name, the
    /// selection is one of the rows, or nothing, and the scroll offset
    /// belongs to the selection.
    pub open spec fn wf(&self) -> bool {
        ListModel::<NodeData>::valid(self@)
    }

    /// The pane never lists more nodes than a `usize` can count.
    pub proof fn lemma_len_fits(&self)
        ensures
            self@.items.len() <= usize::MAX,
    {
        self.list.lemma_len_fits();
    }

    /// A pane without nodes, with nothing selected.
    pub fn new() -> (pane: Self)
        ensures
            pane.wf(),
            pane@ == ListView::<NodeView>::empty(),
    {
        NodePane { list: ListModel::new() }
    }

    /// The nodes, in the order in which they were added.
    pub fn iter(&self) -> (nodes: &Vec<NodeData>)
        ensures
            nodes@.map_values(|node: NodeData| node@) == self@.items,
    {
        self.list.items()
    }

    /// The selected row, if any.
    pub fn selected(&self) -> (selected: Option<usize>)
        ensures
            selected == self@.selected,
    {
        self.list.selected()
    }

    /// The column cursor, if it was ever moved.
    pub fn selected_column(&self) -> (column: Option<usize>)
        ensures
            column == self@.column,
    {
        self.list.selected_column()
    }

    /// The scroll offset, which follows the selected row.
    pub fn scroll_offset(&self) -> (offset: usize)
        ensures
            offset == self@.scroll_offset,
    {
        self.list.scroll_offset()
    }

    /// Adds `node` at the end, unless a node of that name is already listed.
    pub fn add_node(&mut self, node: NodeData)
        requires
            old(self).wf(),
        ensures
            final(self).wf(),
            final(self)@ == ListModel::<NodeData>::appended(old(self)@, node@),
            ListModel::<NodeData>::has_name(final(self)@.items, node@.name),
    {
        self.list.append(node);
    }

    /// Removes the node that equals `node`, if it is listed.
    pub fn remove_node(&mut self, node: NodeData)
        requires
            old(self).wf(),
        ensures
            final(self).wf(),
            final(self)@ == ListModel::<NodeData>::removed(old(self)@, node@),
    {
        self.list.remove(&node);
    }

    /// Moves the selection down one row, wrapping at the end.
    pub fn next_row(&mut self)
        requires
            old(self).wf(),
        ensures
            final(self).wf(),
            final(self)@ == old(self)@.next_row(),
    {
        self.list.next_row();
    }

    /// Moves the selection up one row, wrapping at the start.
    pub fn previous_row(&mut self)
        requires
            old(self).wf(),
        ensures
            final(self).wf(),
            final(self)@ == old(self)@.previous_row(),
    {
        self.list.previous_row();
    }

    /// Moves the column cursor one column to the right.
    pub fn next_column(&mut self)
        requires
            old(self).wf(),
        ensures
            final(self).wf(),
            final(self)@ == old(self)@.next_column(),
    {
        self.list.next_column();
    }

    /// Moves the column cursor one column to the left.
    pub fn previous_column(&mut self)
        requires
            old(self).wf(),
        ensures
            final(self).wf(),
            final(self)@ == old(self)@.previous_column(),
    {
        self.list.previous_column();
    }

    /// Reacts to a keyboard event while the pane is active.
    pub fn handle_key_event(&mut self, key_event: KeyEvent)
        requires
            old(self).wf(),
        ensures
            final(self).wf(),
            final(self)@ == old(self)@.on_key(key_event),
    {
        self.list.handle_key_event(key_event);
    }

    /// Carries out one movement.
    pub fn handle_arrow(&mut self, movement: Movement)
        requires
            old(self).wf(),
        ensures
            final(self).wf(),
            final(self)@ == old(self)@.moved(movement),
    {
        self.list.handle_arrow(movement);
    }
}

/// The pane that lists the topics of the graph.
pub struct TopicPane {
    list: ListModel<TopicData>,
}

impl View for TopicPane {
    type V = ListView<TopicView>;

    closed spec fn view(&self) -> ListView<TopicView> {
        self.list@
    }
}

impl TopicPane {
    /// The invariant of the pane: no two topics have the same name, the
    /// selection is one of the rows, or nothing, and the scroll offset
    /// belongs to the selection.
    pub open spec fn wf(&self) -> bool {
        ListModel::<TopicData>::valid(self@)
    }

    /// The pane never lists more topics than a `usize` can count.
    pub proof fn lemma_len_fits(&self)
        ensures
            self@.items.len() <= usize::MAX,
    {
        self.list.lemma_len_fits();
    }

    /// A pane without topics, with nothing selected.
    pub fn new() -> (pane: Self)
        ensures
            pane.wf(),
            pane@ == ListView::<TopicView>::empty(),
    {
        TopicPane { list: ListModel::new() }
    }

    /// The cells of the table rows, one row for each topic and in the order
    /// of the topics.
    pub fn get_rows(&self) -> (rows: Vec<Vec<String>>)
        ensures
            rows@.len() == self@.items.len(),
            forall|i: int| 0 <= i < rows@.len() ==> texts(#[trigger] rows@[i]@) == self@.items[i].cells(),
    {
        let topics = self.list.items();
        let mut rows: Vec<Vec<String>> = Vec::new();
        let mut i: usize = 0;
        while i < topics.len()
            invariant
                i <= topics.len(),
                rows@.len() == i,
                topics@.map_values(|topic: TopicData| topic@) == self@.items,
                forall|j: int| 0 <= j < i ==> texts(#[trigger] rows@[j]@) == self@.items[j].cells(),
            decreases topics.len() - i,
        {
            assert(self@.items[i as int] == topics@[i as int]@);
            rows.push(topics[i].as_vec_string());
            i += 1;
        }
        rows
    }

    /// The topics, in the order in which they were added.
    pub fn iter(&self) -> (topics: &Vec<TopicData>)
        ensures
            topics@.map_values(|topic: TopicData| topic@) == self@.items,
    {
        self.list.items()
    }

    /// The selected row, if any.
    pub fn selected(&self) -> (selected: Option<usize>)
        ensures
            selected == self@.selected,
    {
        self.list.selected()
    }

    /// The column cursor, if it was ever moved.
    pub fn selected_column(&self) -> (column: Option<usize>)
        ensures
            column == self@.column,
    {
        self.list.selected_column()
    }

    /// The scroll offset, which follows the selected row.
    pub fn scroll_offset(&self) -> (offset: usize)
        ensures
            offset == self@.scroll_offset,
    {
        self.list.scroll_offset()
    }

    /// Adds `topic` at the end, unless a topic of that name is already
    /// listed.
    pub fn add_topic(&mut self, topic: TopicData)
        requires
            old(self).wf(),
        ensures
            final(self).wf(),
            final(self)@ == ListModel::<TopicData>::appended(old(self)@, topic@),
            ListModel::<TopicData>::has_name(final(self)@.items, topic@.name),
    {
        self.list.append(topic);
    }

    /// Removes the topic that equals `topic` in name, message type and
    /// subscriber count, if it is listed.
    pub fn remove_topic(&mut self, topic: TopicData)
        requires
            old(self).wf(),
        ensures
            final(self).wf(),
            final(self)@ == ListModel::<TopicData>::removed(old(self)@, topic@),
    {
        self.list.remove(&topic);
    }

    /// Moves the selection down one row, wrapping at the end.
    pub fn next_row(&mut self)
        requires
            old(self).wf(),
        ensures
            final(self).wf(),
            final(self)@ == old(self)@.next_row(),
    {
        self.list.next_row();
    }

    /// Moves the selection up one row, wrapping at the start.
    pub fn previous_row(&mut self)
        requires
            old(self).wf(),
        ensures
            final(self).wf(),
            final(self)@ == old(self)@.previous_row(),
    {
        self.list.previous_row();
    }

    /// Moves the column cursor one column to the right.
    pub fn next_column(&mut self)
        requires
            old(self).wf(),
        ensures
            final(self).wf(),
            final(self)@ == old(self)@.next_column(),
    {
        self.list.next_column();
    }

    /// Moves the column cursor one column to the left.
    pub fn previous_column(&mut self)
        requires
            old(self).wf(),
        ensures
            final(self).wf(),
            final(self)@ == old(self)@.previous_column(),
    {
        self.list.previous_column();
    }

    /// Reacts to a keyboard event while the pane is active.
    pub fn handle_key_event(&mut self, key_event: KeyEvent)
        requires
            old(self).wf(),
        ensures
            final(self).wf(),
            final(self)@ == old(self)@.on_key(key_event),
    {
        self.list.handle_key_event(key_event);
    }

    /// Carries out one movement.
    pub fn handle_arrow(&mut self, movement: Movement)
        requires
            old(self).wf(),
        ensures
            final(self).wf(),
            final(self)@ == old(self)@.moved(movement),
    {
        self.list.handle_arrow(movement);
    }
}

/// The text of a log: each line followed by a line feed.
pub open spec fn joined(lines: Seq<Seq<char>>) -> Seq<char>
    decreases lines.len(),
{
    if lines.len() == 0 {
        Seq::empty()
    } else {
        joined(lines.drop_last()) + lines.last() + seq!['\n']
    }
}

/// The log behind the details pane: the message payloads, oldest first.
/// Lines are only ever added.
pub struct DetailsLog {
    lines: Vec<String>,
}

impl View for DetailsLog {
    type V = Seq<Seq<char>>;

    closed spec fn view(&self) -> Seq<Seq<char>> {
        texts(self.lines@)
    }
}

impl DetailsLog {
    /// An empty log.
    pub fn new() -> (log: Self)
        ensures
            log@ == Seq::<Seq<char>>::empty(),
    {
        let log = DetailsLog { lines: Vec::new() };
        assert(log@ =~= Seq::empty());
        log
    }

    /// Adds `line` at the end of the log.
    pub fn append(&mut self, line: String)
        ensures
            final(self)@ == old(self)@.push(line@),
    {
        self.lines.push(line);
        assert(self@ =~= old(self)@.push(line@));
    }

    /// The lines of the log, oldest first.
    pub fn lines(&self) -> (lines: &Vec<String>)
        ensures
            texts(lines@) == self@,
    {
        &self.lines
    }

    /// The number of lines.
    pub fn len(&self) -> (len: usize)
        ensures
            len == self@.len(),
    {
        self.lines.len()
    }

    /// The whole log as one text, each line followed by a line feed.
    pub fn text(&self) -> (text: String)
        ensures
            text@ == joined(self@),
    {
        let mut text = String::new();
        let mut i: usize = 0;
        while i < self.lines.len()
            invariant
                i <= self.lines.len(),
                text@ == joined(self@.take(i as int)),
            decreases self.lines.len() - i,
        {
            proof {
                reveal_strlit("\n");
                assert(self@.take(i + 1).drop_last() =~= self@.take(i as int));
                assert(self@.take(i + 1).last() == self.lines@[i as int]@);
            }
            text.append(self.lines[i].as_str());
            text.append("\n");
            assert(text@ =~= joined(self@.take(i + 1)));
            i += 1;
        }
        assert(self@.take(i as int) =~= self@);
        text
    }
}

/// One of the three panes.
#[derive(Clone, Copy, Debug, PartialEq, Eq, Structural)]
pub enum PaneType {
    NodePane,
    TopicsPane,
    DetailsPane,
}

impl PaneType {
    /// The pane after this one: nodes, topics, details, and nodes again.
    pub open spec fn spec_next(self) -> PaneType {
        match self {
            PaneType::NodePane => PaneType::TopicsPane,
            PaneType::TopicsPane => PaneType::DetailsPane,
            PaneType::DetailsPane => PaneType::NodePane,
        }
    }

    /// The pane before this one: nodes, details, topics, and nodes again.
    pub open spec fn spec_previous(self) -> PaneType {
        match self {
            PaneType::NodePane => PaneType::DetailsPane,
            PaneType::TopicsPane => PaneType::NodePane,
            PaneType::DetailsPane => PaneType::TopicsPane,
        }
    }

    /// The pane that focus moves to under a key pressed while navigating:
    /// the previous pane for `Left` and `h`, the next for `Right` and `l`,
    /// the pane that `n`, `t` or `d` names, and this pane for any other key.
    pub open spec fn after_key(self, code: KeyCode) -> PaneType {
        match code {
            KeyCode::Left => self.spec_previous(),
            KeyCode::Right => self.spec_next(),
            KeyCode::Char(c) => if c == 'h' {
                self.spec_previous()
            } else if c == 'l' {
                self.spec_next()
            } else if c == 'n' {
                PaneType::NodePane
            } else if c == 't' {
                PaneType::TopicsPane
            } else if c == 'd' {
                PaneType::DetailsPane
            } else {
                self
            },
            _ => self,
        }
    }
}

impl Default for PaneType {
    /// Focus starts on the node pane.
    fn default() -> (pane: Self)
        ensures
            pane == PaneType::NodePane,
    {
        PaneType::NodePane
    }
}

/// The mathematical content of a [`PaneManager`].
pub struct PaneManagerView {
    pub nodes: ListView<NodeView>,
    pub topics: ListView<TopicView>,
    pub details: Seq<Seq<char>>,
    pub focused: PaneType,
}

impl PaneManagerView {
    /// The panes before anything was discovered: empty, with focus on the
    /// node pane.
    pub open spec fn empty() -> Self {
        PaneManagerView {
            nodes: ListView::empty(),
            topics: ListView::empty(),
            details: Seq::empty(),
            focused: PaneType::NodePane,
        }
    }

    /// The panes after a keyboard event that arrives while navigating: a
    /// pressed key may move the focus, and nothing else changes.
    pub open spec fn on_navigation_key(self, key: KeyEvent) -> Self {
        if key.kind == KeyEventKind::Press {
            PaneManagerView { focused: self.focused.after_key(key.code), ..self }
        } else {
            self
        }
    }

    /// The panes after a keyboard event that arrives while a pane is active:
    /// the focused list reacts to it, and the details pane ignores it.
    pub open spec fn on_active_key(self, key: KeyEvent) -> Self {
        match self.focused {
            PaneType::NodePane => PaneManagerView { nodes: self.nodes.on_key(key), ..self },
            PaneType::TopicsPane => PaneManagerView { topics: self.topics.on_key(key), ..self },
            PaneType::DetailsPane => self,
        }
    }
}

/// The owner of the three panes and of the focus.
pub struct PaneManager {
    pub node_pane: NodePane,
    pub topics_pane: TopicPane,
    pub details: DetailsLog,
    pub focused_pane: PaneType,
}

impl View for PaneManager {
    type V = PaneManagerView;

    open spec fn view(&self) -> PaneManagerView {
        PaneManagerView {
            nodes: self.node_pane@,
            topics: self.topics_pane@,
            details: self.details@,
            focused: self.focused_pane,
        }
    }
}

impl PaneManager {
    /// The invariant of the manager: both list panes are well formed.
    pub open spec fn wf(&self) -> bool {
        &&& self.node_pane.wf()
        &&& self.topics_pane.wf()
    }

    /// Neither list pane lists more records than a `usize` can count.
    pub proof fn lemma_len_fits(&self)
        ensures
            self@.nodes.items.len() <= usize::MAX,
            self@.topics.items.len() <= usize::MAX,
    {
        self.node_pane.lemma_len_fits();
        self.topics_pane.lemma_len_fits();
    }

    /// Empty panes, with focus on the node pane.
    pub fn new() -> (manager: Self)
        ensures
            manager.wf(),
            manager@ == PaneManagerView::empty(),
    {
        PaneManager {
            node_pane: NodePane::new(),
            topics_pane: TopicPane::new(),
            details: DetailsLog::new(),
            focused_pane: PaneType::default(),
        }
    }

    /// Reacts to a keyboard event while navigating between the panes.
    pub fn handle_key_event(&mut self, key_event: KeyEvent)
        ensures
            final(self)@ == old(self)@.on_navigation_key(key_event),
            final(self).wf() == old(self).wf(),
    {
        if key_event.kind != KeyEventKind::Press {
            return ;
        }
        match key_event.code {
            KeyCode::Left | KeyCode::Char('h') => self.previous_pane(),
            KeyCode::Right | KeyCode::Char('l') => self.next_pane(),
            KeyCode::Char('n') => self.focused_pane = PaneType::NodePane,
            KeyCode::Char('t') => self.focused_pane = PaneType::TopicsPane,
            KeyCode::Char('d') => self.focused_pane = PaneType::DetailsPane,
            _ => {},
        }
    }

    /// Reacts to a keyboard event while the focused pane is active.
    pub fn handle_active_key_event(&mut self, key_event: KeyEvent)
        requires
            old(self).wf(),
        ensures
            final(self).wf(),
            final(self)@ == old(self)@.on_active_key(key_event),
    {
        match self.focused_pane {
            PaneType::NodePane => self.node_pane.handle_key_event(key_event),
            PaneType::TopicsPane => self.topics_pane.handle_key_event(key_event),
            PaneType::DetailsPane => {},
        }
    }

    /// Moves the focus to the previous pane.
    pub fn previous_pane(&mut self)
        ensures
            final(self)@ == (PaneManagerView {
                focused: old(self)@.focused.spec_previous(),
                ..old(self)@
            }),
            final(self).wf() == old(self).wf(),
    {
        self.focused_pane = match self.focused_pane {
            PaneType::NodePane => PaneType::DetailsPane,
            PaneType::TopicsPane => PaneType::NodePane,
            PaneType::DetailsPane => PaneType::TopicsPane,
        }
    }

    /// Moves the focus to the next pane.
    pub fn next_pane(&mut self)
        ensures
            final(self)@ == (PaneManagerView {
                focused: old(self)@.focused.spec_next(),
                ..old(self)@
            }),
            final(self).wf() == old(self).wf(),
    {
        self.focused_pane = match self.focused_pane {
            PaneType::NodePane => PaneType::TopicsPane,
            PaneType::TopicsPane => PaneType::DetailsPane,
            PaneType::DetailsPane => PaneType::NodePane,
        }
    }
}

/// How the border of a pane is drawn.
#[derive(Clone, Copy, Debug, PartialEq, Eq, Structural)]
pub enum BorderKind {
    Thick,
    Rounded,
}

/// The colour of a pane's frame.
#[derive(Clone, Copy, Debug, PartialEq, Eq, Structural)]
pub enum FrameColor {
    Green,
    Blue,
    White,
}

/// The look of a pane's frame.
#[derive(Clone, Copy, Debug, PartialEq, Eq, Structural)]
pub struct BlockStyle {
    pub border: BorderKind,
    pub color: FrameColor,
}

impl BlockStyle {
    /// The frame of a pane: thick and green when the pane is focused and
    /// active, rounded and blue when it is only focused, and rounded and
    /// white when it is not focused.
    pub open spec fn of(is_focused: bool, is_active: bool) -> BlockStyle {
        BlockStyle {
            border: if is_focused && is_active {
                BorderKind::Thick
            } else {
                BorderKind::Rounded
            },
            color: if !is_focused {
                FrameColor::White
            } else if is_active {
                FrameColor::Green
            } else {
                FrameColor::Blue
            },
        }
    }
}

/// Chooses the frame of a pane from whether the pane is focused and whether
/// the focused pane is active.
pub fn create_stylized_block(is_focused: bool, is_active: bool) -> (style: BlockStyle)
    ensures
        style == BlockStyle::of(is_focused, is_active),
{
    let border = match is_focused && is_active {
        true => BorderKind::Thick,
        false => BorderKind::Rounded,
    };
    let color = match (is_focused, is_active) {
        (true, true) => FrameColor::Green,
        (true, false) => FrameColor::Blue,
        (false, _) => FrameColor::White,
    };
    BlockStyle { border, color }
}

} // verus!
