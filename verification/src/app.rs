//! The dashboard controller: the state machine that consumes one event at a
//! time and changes the application state and the panes.

use vstd::prelude::*;
use crate::event::{
    event_views, Event, EventView, KeyCode, KeyEvent, KeyEventKind, ROSEvent, ROSEventView,
};
use crate::list::ListModel;
use crate::pane::{
    create_stylized_block, BlockStyle, NodeData, NodeView, PaneManager, PaneManagerView, PaneType,
    TopicData, TopicView,
};
use crate::watcher::{
    fresh_topics, lemma_fresh_exact, lemma_fresh_topic_names, topic_events, topic_names,
    TopicListingView,
};

verus! {

/// The mode of the dashboard.
#[derive(Clone, Copy, Debug, PartialEq, Eq, Structural)]
pub enum AppState {
    /// Keys move the focus from pane to pane.
    Navigation,
    /// The key bindings are shown.
    ShowingInstructions,
    /// Keys move the selection inside the focused pane.
    ActivePane,
    /// The dashboard has been quit; nothing leads out of this state.
    Exit,
}

impl Default for AppState {
    /// The dashboard starts in navigation.
    fn default() -> (state: Self)
        ensures
            state == AppState::Navigation,
    {
        AppState::Navigation
    }
}

impl AppState {
    /// Whether a pressed key acts on the mode itself rather than on the
    /// panes: `q` always; `i` except after quitting; `Enter` while
    /// navigating; `Esc` while a pane is active or the key bindings are shown.
    pub open spec fn claims(self, code: KeyCode) -> bool {
        match code {
            KeyCode::Char(c) => c == 'q' || (c == 'i' && self != AppState::Exit),
            KeyCode::Enter => self == AppState::Navigation,
            KeyCode::Esc => self == AppState::ActivePane || self == AppState::ShowingInstructions,
            _ => false,
        }
    }

    /// The mode after a pressed key: `q` quits; `i` shows the key bindings,
    /// or leaves them for navigation; `Enter` activates the focused pane;
    /// `Esc` goes back to navigation. Any other key leaves the mode as it is.
    pub open spec fn after_key(self, code: KeyCode) -> AppState {
        match code {
            KeyCode::Char(c) => if c == 'i' && (self == AppState::Navigation || self
                == AppState::ActivePane) {
                AppState::ShowingInstructions
            } else if c == 'q' {
                AppState::Exit
            } else if c == 'i' && self == AppState::ShowingInstructions {
                AppState::Navigation
            } else {
                self
            },
            KeyCode::Enter => if self == AppState::Navigation {
                AppState::ActivePane
            } else {
                self
            },
            KeyCode::Esc => if self == AppState::ActivePane || self
                == AppState::ShowingInstructions {
                AppState::Navigation
            } else {
                self
            },
            _ => self,
        }
    }
}

/// What the controller asks of the terminal after it has consumed an event.
#[derive(Clone, Copy, Debug, PartialEq, Eq, Structural)]
pub enum Action {
    /// Draw the dashboard again.
    Redraw,
    /// Clear the terminal, then draw the dashboard again.
    ClearAndRedraw,
}

/// The mathematical content of an [`App`]: its mode and its panes.
pub struct AppView {
    pub state: AppState,
    pub panes: PaneManagerView,
}

impl AppView {
    /// The dashboard after a keyboard event. Only pressed keys count. A key
    /// that the mode claims changes the mode and nothing else. Any other key
    /// goes to the pane manager while navigating, to the focused pane while a
    /// pane is active, and is dropped otherwise.
    pub open spec fn on_key(self, key: KeyEvent) -> AppView {
        if key.kind != KeyEventKind::Press {
            self
        } else if self.state.claims(key.code) {
            AppView { state: self.state.after_key(key.code), ..self }
        } else {
            match self.state {
                AppState::ActivePane => AppView { panes: self.panes.on_active_key(key), ..self },
                AppState::Navigation => AppView {
                    panes: self.panes.on_navigation_key(key),
                    ..self
                },
                _ => self,
            }
        }
    }

    /// The dashboard after a report from the graph watcher, whatever the
    /// mode: a payload becomes a line of the details log, a node joins the
    /// node pane, and a topic joins the topic pane with no subscribers
    /// counted yet. A node or topic whose name is already listed changes
    /// nothing.
    pub open spec fn on_ros_event(self, event: ROSEventView) -> AppView {
        match event {
            ROSEventView::SubscriptionMessage(text) => AppView {
                panes: PaneManagerView { details: self.panes.details.push(text), ..self.panes },
                ..self
            },
            ROSEventView::NewNode(name) => AppView {
                panes: PaneManagerView {
                    nodes: ListModel::<NodeData>::appended(self.panes.nodes, NodeView { name }),
                    ..self.panes
                },
                ..self
            },
            ROSEventView::NewTopic(name, msg_type) => AppView {
                panes: PaneManagerView {
                    topics: ListModel::<TopicData>::appended(
                        self.panes.topics,
                        TopicView { name, msg_type, num_subscribers: 0 },
                    ),
                    ..self.panes
                },
                ..self
            },
        }
    }

    /// Whether the dashboard shows what `event` reports: the node or the
    /// topic is listed under its name, or the payload is the last line of the
    /// details log.
    pub open spec fn shows(self, event: ROSEventView) -> bool {
        match event {
            ROSEventView::SubscriptionMessage(text) => self.panes.details.len() > 0
                && self.panes.details.last() == text,
            ROSEventView::NewNode(name) => ListModel::<NodeData>::has_name(
                self.panes.nodes.items,
                name,
            ),
            ROSEventView::NewTopic(name, _) => ListModel::<TopicData>::has_name(
                self.panes.topics.items,
                name,
            ),
        }
    }

    /// The dashboard after one event. A resize changes nothing.
    pub open spec fn step(self, event: EventView) -> AppView {
        match event {
            EventView::Input(key) => self.on_key(key),
            EventView::Resize(_, _) => self,
            EventView::ROSEvent { event } => self.on_ros_event(event),
        }
    }

    /// What the terminal is asked to do after `event`: every event is
    /// followed by one redraw, and a resize clears the terminal first.
    pub open spec fn action(event: EventView) -> Action {
        match event {
            EventView::Resize(_, _) => Action::ClearAndRedraw,
            _ => Action::Redraw,
        }
    }

    /// The dashboard after consuming `events` in order, stopping for good
    /// once it has been quit.
    pub open spec fn run(self, events: Seq<EventView>) -> AppView
        decreases events.len(),
    {
        if events.len() == 0 || self.state == AppState::Exit {
            self
        } else {
            self.step(events[0]).run(events.skip(1))
        }
    }

    /// How many of `events` are consumed before the dashboard has been quit.
    pub open spec fn consumed(self, events: Seq<EventView>) -> nat
        decreases events.len(),
    {
        if events.len() == 0 || self.state == AppState::Exit {
            0
        } else {
            1 + self.step(events[0]).consumed(events.skip(1))
        }
    }

    /// What makes a dashboard valid: both lists are valid.
    pub open spec fn valid(self) -> bool {
        &&& ListModel::<NodeData>::valid(self.panes.nodes)
        &&& ListModel::<TopicData>::valid(self.panes.topics)
    }
}

/// The events that report the topics `topics`, each given by its name and
/// its message type.
pub open spec fn new_topic_events(topics: Seq<(Seq<char>, Seq<char>)>) -> Seq<EventView> {
    topics.map_values(
        |topic: (Seq<char>, Seq<char>)|
            EventView::ROSEvent { event: ROSEventView::NewTopic(topic.0, topic.1) },
    )
}

/// The topic records that reports of `topics` lead to.
pub open spec fn reported_topics(topics: Seq<(Seq<char>, Seq<char>)>) -> Seq<TopicView> {
    topics.map_values(
        |topic: (Seq<char>, Seq<char>)|
            TopicView { name: topic.0, msg_type: topic.1, num_subscribers: 0 },
    )
}

/// The topic records that the announcements of `topics` lead to: each under
/// its name, with the first of its message types and no subscribers counted.
pub open spec fn announced_topics(topics: Seq<TopicListingView>) -> Seq<TopicView> {
    topics.map_values(
        |topic: TopicListingView|
            TopicView { name: topic.name, msg_type: topic.msg_types[0], num_subscribers: 0 },
    )
}

/// The names of `topics`.
pub open spec fn reported_names(topics: Seq<(Seq<char>, Seq<char>)>) -> Seq<Seq<char>> {
    topics.map_values(|topic: (Seq<char>, Seq<char>)| topic.0)
}

impl AppView {
    /// Whatever the event, a valid dashboard stays valid.
    pub proof fn lemma_step_valid(self, event: EventView)
        requires
            self.valid(),
        ensures
            self.step(event).valid(),
    {
        self.panes.nodes.lemma_row_steps();
        self.panes.topics.lemma_row_steps();
    }

    /// What the graph watcher reports is shown afterwards, whatever the mode.
    pub proof fn lemma_report_shown(self, event: ROSEventView)
        ensures
            self.on_ros_event(event).shows(event),
            self.on_ros_event(event).state == self.state,
    {
        match event {
            ROSEventView::SubscriptionMessage(text) => {},
            ROSEventView::NewNode(name) => {
                let after = self.on_ros_event(event).panes.nodes.items;
                if !ListModel::<NodeData>::has_name(self.panes.nodes.items, name) {
                    assert(after[after.len() - 1].name == name);
                }
            },
            ROSEventView::NewTopic(name, msg_type) => {
                let after = self.on_ros_event(event).panes.topics.items;
                if !ListModel::<TopicData>::has_name(self.panes.topics.items, name) {
                    assert(after[after.len() - 1].name == name);
                }
            },
        }
    }

    /// One event changes the mode or the panes, never both; a report from
    /// the graph watcher and a resize leave the mode as it is.
    pub proof fn lemma_step_changes_one(self, event: EventView)
        ensures
            self.step(event).state == self.state || self.step(event).panes == self.panes,
            !(event is Input) ==> self.step(event).state == self.state,
    {
    }

    /// From navigation, `Enter` activates the focused pane and `Esc` leads
    /// back: after both the dashboard is as it was.
    pub proof fn lemma_enter_esc_round_trip(self)
        requires
            self.state == AppState::Navigation,
        ensures
            self.on_key(KeyEvent::pressed(KeyCode::Enter)).state == AppState::ActivePane,
            self.on_key(KeyEvent::pressed(KeyCode::Enter)).on_key(
                KeyEvent::pressed(KeyCode::Esc),
            ) == self,
    {
    }

    /// In every mode, pressing `q` quits.
    pub proof fn lemma_q_exits(self)
        ensures
            self.on_key(KeyEvent::pressed(KeyCode::Char('q'))).state == AppState::Exit,
            self.on_key(KeyEvent::pressed(KeyCode::Char('q'))).panes == self.panes,
    {
    }

    /// Nothing leads out of `Exit`: no keyboard event and no resize changes
    /// a dashboard that has been quit.
    pub proof fn lemma_exit_is_final(self, event: EventView)
        requires
            self.state == AppState::Exit,
        ensures
            self.step(event).state == AppState::Exit,
            !(event is ROSEvent) ==> self.step(event) == self,
    {
    }

    /// Once the dashboard has been quit, no further event is consumed:
    /// whatever follows the events that led to `Exit` changes nothing.
    pub proof fn lemma_run_stops_at_exit(self, events: Seq<EventView>, more: Seq<EventView>)
        requires
            self.run(events).state == AppState::Exit,
        ensures
            self.run(events + more) == self.run(events),
            self.consumed(events + more) == self.consumed(events),
        decreases events.len(),
    {
        if self.state == AppState::Exit {
        } else if events.len() == 0 {
        } else {
            assert((events + more)[0] == events[0]);
            assert((events + more).skip(1) =~= events.skip(1) + more);
            self.step(events[0]).lemma_run_stops_at_exit(events.skip(1), more);
        }
    }

    /// Running consumes at most the events it is given, and all of them
    /// unless it ends in `Exit`.
    pub proof fn lemma_consumed_bound(self, events: Seq<EventView>)
        ensures
            self.consumed(events) <= events.len(),
            self.run(events).state != AppState::Exit ==> self.consumed(events) == events.len(),
        decreases events.len(),
    {
        if self.state != AppState::Exit && events.len() > 0 {
            self.step(events[0]).lemma_consumed_bound(events.skip(1));
        }
    }

    /// The key bindings are reached by `i` from navigation and from an
    /// active pane.
    pub proof fn lemma_instructions_reachable(self)
        requires
            self.state == AppState::Navigation || self.state == AppState::ActivePane,
        ensures
            self.on_key(KeyEvent::pressed(KeyCode::Char('i'))) == (AppView {
                state: AppState::ShowingInstructions,
                ..self
            }),
    {
    }

    /// From the key bindings, `Esc` and `i` lead to navigation, `q` quits,
    /// and no event at all leads to an active pane: any other event leaves
    /// the key bindings on show.
    pub proof fn lemma_instructions_return(self, event: EventView)
        requires
            self.state == AppState::ShowingInstructions,
        ensures
            self.on_key(KeyEvent::pressed(KeyCode::Esc)).state == AppState::Navigation,
            self.on_key(KeyEvent::pressed(KeyCode::Char('i'))).state == AppState::Navigation,
            self.step(event).state != AppState::ActivePane,
            self.step(event).state == AppState::Navigation <==> (event == EventView::Input(
                KeyEvent::pressed(KeyCode::Esc),
            ) || event == EventView::Input(KeyEvent::pressed(KeyCode::Char('i')))),
            self.step(event).state == AppState::Exit <==> event == EventView::Input(
                KeyEvent::pressed(KeyCode::Char('q')),
            ),
    {
    }

    /// A running dashboard consumes every report of a topic, and each one
    /// does to the topic pane what appending its record does; nothing else
    /// changes.
    pub proof fn lemma_run_new_topics(self, topics: Seq<(Seq<char>, Seq<char>)>)
        requires
            self.state != AppState::Exit,
        ensures
            self.run(new_topic_events(topics)) == (AppView {
                panes: PaneManagerView {
                    topics: ListModel::<TopicData>::appended_all(
                        self.panes.topics,
                        reported_topics(topics),
                    ),
                    ..self.panes
                },
                ..self
            }),
            self.consumed(new_topic_events(topics)) == topics.len(),
        decreases topics.len(),
    {
        let events = new_topic_events(topics);
        let records = reported_topics(topics);
        if topics.len() > 0 {
            let next = self.step(events[0]);
            assert(events.skip(1) =~= new_topic_events(topics.skip(1)));
            assert(records.skip(1) =~= reported_topics(topics.skip(1)));
            next.lemma_run_new_topics(topics.skip(1));
        }
    }

    /// After any reports of topics, the topic pane of a running dashboard
    /// lists as many topics as there are different names among those it
    /// listed before and those reported.
    pub proof fn lemma_new_topics_count(self, topics: Seq<(Seq<char>, Seq<char>)>)
        requires
            self.valid(),
            self.state != AppState::Exit,
        ensures
            self.run(new_topic_events(topics)).panes.topics.items.len() == (
            ListModel::<TopicData>::names(self.panes.topics.items) + reported_names(
                topics,
            )).to_set().len(),
    {
        self.lemma_run_new_topics(topics);
        ListModel::<TopicData>::lemma_append_all_count(self.panes.topics, reported_topics(topics));
        assert(ListModel::<TopicData>::names(self.panes.topics.items + reported_topics(topics))
            =~= ListModel::<TopicData>::names(self.panes.topics.items) + reported_names(topics));
    }

    /// Topics reported under names that differ from each other, to a running
    /// dashboard that lists none yet, are all listed, in the order of the
    /// reports: the pane is as long as the reports are many.
    pub proof fn lemma_new_topics_distinct(self, topics: Seq<(Seq<char>, Seq<char>)>)
        requires
            self.state != AppState::Exit,
            self.panes.topics.items.len() == 0,
            reported_names(topics).no_duplicates(),
        ensures
            self.run(new_topic_events(topics)).panes.topics.items == reported_topics(topics),
            self.run(new_topic_events(topics)).panes.topics.items.len() == topics.len(),
    {
        self.lemma_run_new_topics(topics);
        let records = reported_topics(topics);
        assert(self.panes.topics.items + records =~= records);
        assert forall|i: int, j: int| 0 <= i < j < records.len() implies records[i].name
            != records[j].name by {
            assert(reported_names(topics)[i] == records[i].name);
            assert(reported_names(topics)[j] == records[j].name);
        }
        ListModel::<TopicData>::lemma_append_all_distinct(self.panes.topics, records);
    }

    /// The topic pane keeps step with the graph watcher: if the pane of a
    /// running dashboard lists the names that the watcher knows, in the same
    /// order, then after a poll whose events the dashboard has consumed it
    /// lists the names that the watcher knows then, each of the new topics
    /// once and with its first message type.
    pub proof fn lemma_pane_follows_watcher(
        self,
        known: Seq<Seq<char>>,
        discovered: Seq<TopicListingView>,
    )
        requires
            self.valid(),
            self.state != AppState::Exit,
            ListModel::<TopicData>::names(self.panes.topics.items) == known,
        ensures
            self.run(topic_events(fresh_topics(known, discovered))).panes.topics.items
                == self.panes.topics.items + announced_topics(fresh_topics(known, discovered)),
            ListModel::<TopicData>::names(
                self.run(topic_events(fresh_topics(known, discovered))).panes.topics.items,
            ) == known + topic_names(fresh_topics(known, discovered)),
            self.run(topic_events(fresh_topics(known, discovered))).valid(),
    {
        let news = fresh_topics(known, discovered);
        let pairs = news.map_values(|topic: TopicListingView| (topic.name, topic.msg_types[0]));
        let records = announced_topics(news);
        let listed = self.panes.topics.items;
        assert(topic_events(news) =~= new_topic_events(pairs));
        assert(reported_topics(pairs) =~= records);
        self.lemma_run_new_topics(pairs);
        lemma_fresh_topic_names(known, discovered);
        lemma_fresh_exact(known, topic_names(discovered));
        let fresh_names = topic_names(news);
        assert forall|i: int, j: int| 0 <= i < j < (listed + records).len() implies (listed
            + records)[i].name != (listed + records)[j].name by {
            if j < listed.len() {
            } else if i < listed.len() {
                assert(known[i] == listed[i].name);
                assert(known.contains(listed[i].name));
                assert(fresh_names[j - listed.len()] == records[j - listed.len()].name);
                assert(fresh_names.contains(records[j - listed.len()].name));
            } else {
                assert(fresh_names[i - listed.len()] == records[i - listed.len()].name);
                assert(fresh_names[j - listed.len()] == records[j - listed.len()].name);
            }
        }
        ListModel::<TopicData>::lemma_append_all_distinct(self.panes.topics, records);
        ListModel::<TopicData>::lemma_appended_all_valid(self.panes.topics, records);
        assert(ListModel::<TopicData>::names(listed + records) =~= known + fresh_names);
    }

    /// A report of a topic whose name is already listed changes nothing: a
    /// repeated name never makes the topic pane longer.
    pub proof fn lemma_repeated_topic(self, name: Seq<char>, msg_type: Seq<char>)
        requires
            ListModel::<TopicData>::has_name(self.panes.topics.items, name),
        ensures
            self.on_ros_event(ROSEventView::NewTopic(name, msg_type)) == self,
    {
    }
}

/// A key binding as the help popup shows it.
#[derive(Debug)]
pub struct Instruction {
    pub key_code: KeyCode,
    pub description: String,
}

/// The mathematical content of an [`Instruction`].
pub struct InstructionView {
    pub key_code: KeyCode,
    pub description: Seq<char>,
}

impl View for Instruction {
    type V = InstructionView;

    open spec fn view(&self) -> InstructionView {
        InstructionView { key_code: self.key_code, description: self.description@ }
    }
}

impl Instruction {
    /// The binding of the character key `key_code`, described by `text`.
    pub fn new(key_code: char, text: &str) -> (instruction: Instruction)
        ensures
            instruction@ == (InstructionView {
                key_code: KeyCode::Char(key_code),
                description: text@,
            }),
    {
        Instruction { key_code: KeyCode::Char(key_code), description: text.to_owned() }
    }
}

/// The key bindings that the dashboard explains, in the order in which the
/// popup lists them.
pub open spec fn key_bindings() -> Seq<InstructionView> {
    seq![
        InstructionView { key_code: KeyCode::Char('q'), description: "Return to navigation"@ },
        InstructionView { key_code: KeyCode::Char('i'), description: "Toggle instructions"@ },
        InstructionView { key_code: KeyCode::Char('j'), description: "Down"@ },
        InstructionView { key_code: KeyCode::Char('k'), description: "Up"@ },
        InstructionView { key_code: KeyCode::Char('h'), description: "Left"@ },
        InstructionView { key_code: KeyCode::Char('l'), description: "Right"@ },
        InstructionView { key_code: KeyCode::Enter, description: "Focus window"@ },
        InstructionView { key_code: KeyCode::Esc, description: "Escape focused window"@ },
    ]
}

/// The dashboard: its mode, its key bindings and its panes.
pub struct App {
    app_state: AppState,
    instructions: Vec<Instruction>,
    pane_manager: PaneManager,
}

impl View for App {
    type V = AppView;

    closed spec fn view(&self) -> AppView {
        AppView { state: self.app_state, panes: self.pane_manager@ }
    }
}

impl Default for App {
    /// A dashboard in navigation, with empty panes and no key bindings to
    /// show.
    fn default() -> (app: Self)
        ensures
            app.wf(),
            app@ == (AppView { state: AppState::Navigation, panes: PaneManagerView::empty() }),
            app.bindings() == Seq::<InstructionView>::empty(),
    {
        let app = App {
            app_state: AppState::default(),
            instructions: Vec::new(),
            pane_manager: PaneManager::new(),
        };
        assert(app.bindings() =~= Seq::empty());
        app
    }
}

impl App {
    /// A dashboard in navigation that knows its key bindings: its panes are
    /// empty, nothing is selected and the focus is on the node pane. Nodes
    /// and topics are listed only once the graph watcher reports them.
    pub fn new() -> (app: App)
        ensures
            app.wf(),
            app@ == (AppView { state: AppState::Navigation, panes: PaneManagerView::empty() }),
            app.bindings() == key_bindings(),
    {
        let mut instructions: Vec<Instruction> = Vec::new();
        instructions.push(Instruction::new('q', "Return to navigation"));
        instructions.push(Instruction::new('i', "Toggle instructions"));
        instructions.push(Instruction::new('j', "Down"));
        instructions.push(Instruction::new('k', "Up"));
        instructions.push(Instruction::new('h', "Left"));
        instructions.push(Instruction::new('l', "Right"));
        instructions.push(
            Instruction { key_code: KeyCode::Enter, description: "Focus window".to_owned() },
        );
        instructions.push(
            Instruction { key_code: KeyCode::Esc, description: "Escape focused window".to_owned() },
        );
        let app = App {
            app_state: AppState::default(),
            instructions,
            pane_manager: PaneManager::new(),
        };
        assert(app.bindings() =~= key_bindings());
        app
    }

    /// Neither list pane of the dashboard lists more records than a `usize`
    /// can count.
    pub proof fn lemma_len_fits(&self)
        ensures
            self@.panes.nodes.items.len() <= usize::MAX,
            self@.panes.topics.items.len() <= usize::MAX,
    {
        self.pane_manager.lemma_len_fits();
    }

    /// The invariant of the dashboard: its content is valid.
    pub open spec fn wf(&self) -> bool {
        self@.valid()
    }

    /// The key bindings that the dashboard holds.
    pub closed spec fn bindings(&self) -> Seq<InstructionView> {
        self.instructions@.map_values(|instruction: Instruction| instruction@)
    }

    /// The mode of the dashboard.
    pub fn state(&self) -> (state: AppState)
        ensures
            state == self@.state,
    {
        self.app_state
    }

    /// The panes of the dashboard.
    pub fn pane_manager(&self) -> (manager: &PaneManager)
        ensures
            manager@ == self@.panes,
            self.wf() ==> manager.wf(),
    {
        &self.pane_manager
    }

    /// The key bindings, in the order in which the popup lists them.
    pub fn instructions(&self) -> (instructions: &Vec<Instruction>)
        ensures
            instructions@.map_values(|instruction: Instruction| instruction@) == self.bindings(),
    {
        &self.instructions
    }

    /// Whether the dashboard is still running, that is, has not been quit.
    pub fn is_running(&self) -> (running: bool)
        ensures
            running == (self@.state != AppState::Exit),
    {
        self.app_state != AppState::Exit
    }

    /// The frame of `pane` as the dashboard is now: that of a focused pane
    /// if `pane` has the focus, and of an active one if the dashboard is in
    /// the mode in which keys go to the focused pane.
    pub fn block_style(&self, pane: PaneType) -> (style: BlockStyle)
        ensures
            style == BlockStyle::of(
                self@.panes.focused == pane,
                self@.state == AppState::ActivePane,
            ),
    {
        create_stylized_block(
            self.pane_manager.focused_pane == pane,
            self.app_state == AppState::ActivePane,
        )
    }

    /// Reacts to a report from the graph watcher. The mode plays no part.
    pub fn handle_ros_events(&mut self, ros_event: ROSEvent)
        requires
            old(self).wf(),
        ensures
            final(self).wf(),
            final(self)@ == old(self)@.on_ros_event(ros_event@),
            final(self)@.shows(ros_event@),
            final(self).bindings() == old(self).bindings(),
    {
        match ros_event {
            ROSEvent::SubscriptionMessage(msg) => {
                self.pane_manager.details.append(msg);
            },
            ROSEvent::NewNode(name) => {
                self.pane_manager.node_pane.add_node(NodeData { name });
            },
            ROSEvent::NewTopic(name, msg_type) => {
                self.pane_manager.topics_pane.add_topic(
                    TopicData { name, num_subscribers: 0, msg_type },
                );
            },
        }
    }

    /// Reacts to a keyboard event.
    pub fn handle_key_event(&mut self, key_event: KeyEvent)
        requires
            old(self).wf(),
        ensures
            final(self).wf(),
            final(self)@ == old(self)@.on_key(key_event),
            final(self).bindings() == old(self).bindings(),
    {
        if key_event.kind != KeyEventKind::Press {
            return ;
        }
        match (self.app_state, key_event.code) {
            (AppState::Navigation | AppState::ActivePane, KeyCode::Char('i')) => {
                self.app_state = AppState::ShowingInstructions
            },
            (_, KeyCode::Char('q')) => self.app_state = AppState::Exit,
            (AppState::ShowingInstructions, KeyCode::Esc) => self.app_state = AppState::Navigation,
            (AppState::ShowingInstructions, KeyCode::Char('i')) => {
                self.app_state = AppState::Navigation
            },
            (AppState::Navigation, KeyCode::Enter) => self.app_state = AppState::ActivePane,
            (AppState::ActivePane, KeyCode::Esc) => {
                self.app_state = AppState::Navigation;
            },
            (AppState::ActivePane, _) => self.pane_manager.handle_active_key_event(key_event),
            (AppState::Navigation, _) => self.pane_manager.handle_key_event(key_event),
            (AppState::ShowingInstructions, _) => {},
            (AppState::Exit, _) => {},
        }
    }

    /// Consumes one event and says what the terminal is to do next.
    pub fn handle_event(&mut self, event: Event) -> (action: Action)
        requires
            old(self).wf(),
        ensures
            final(self).wf(),
            final(self)@ == old(self)@.step(event@),
            event@ matches EventView::ROSEvent { event: report } ==> final(self)@.shows(report),
            action == AppView::action(event@),
            final(self).bindings() == old(self).bindings(),
    {
        match event {
            Event::Input(key_event) => {
                self.handle_key_event(key_event);
                Action::Redraw
            },
            Event::Resize(_, _) => Action::ClearAndRedraw,
            Event::ROSEvent { event: ros_event } => {
                self.handle_ros_events(ros_event);
                Action::Redraw
            },
        }
    }

    /// Consumes `events` in order until the dashboard has been quit, and says
    /// how many were consumed, which is also the number of redraws that they
    /// call for. Events that come after the quit are dropped unseen.
    pub fn run(&mut self, events: Vec<Event>) -> (consumed: usize)
        requires
            old(self).wf(),
        ensures
            final(self).wf(),
            final(self)@ == old(self)@.run(event_views(events@)),
            consumed == old(self)@.consumed(event_views(events@)),
            final(self).bindings() == old(self).bindings(),
    {
        let ghost all = event_views(events@);
        let ghost start = self@;
        let total: usize = events.len();
        let mut consumed: usize = 0;
        assert(all.skip(0) =~= all);
        for event in it: events
            invariant
                all == event_views(events@),
                it.seq() == events@,
                events@.len() == total,
                self.wf(),
                self.bindings() == old(self).bindings(),
                consumed <= it.index(),
                self@.run(all.skip(it.index() as int)) == start.run(all),
                consumed + self@.consumed(all.skip(it.index() as int)) == start.consumed(all),
        {
            let ghost rest = all.skip(it.index() as int);
            assert(it.index() < events@.len());
            assert(rest[0] == event@);
            assert(rest.skip(1) =~= all.skip(it.index() + 1));
            if self.is_running() {
                self.handle_event(event);
                consumed += 1;
            }
        }
        consumed
    }
}

} // verus!
