//! The bookkeeping of the graph watcher: which names it has seen, and which
//! discovery events a new listing of the graph calls for.

use vstd::prelude::*;
use crate::event::{event_views, Event, EventView, ROSEvent, ROSEventView};
use crate::text::texts;

verus! {

/// One topic as the graph service lists it: its name and the message types
/// published under it.
#[derive(Debug)]
pub struct TopicListing {
    pub name: String,
    pub msg_types: Vec<String>,
}

/// The mathematical content of a [`TopicListing`].
pub struct TopicListingView {
    pub name: Seq<char>,
    pub msg_types: Seq<Seq<char>>,
}

impl View for TopicListing {
    type V = TopicListingView;

    open spec fn view(&self) -> TopicListingView {
        TopicListingView { name: self.name@, msg_types: texts(self.msg_types@) }
    }
}

/// The mathematical content of a listing of topics.
pub open spec fn listings(topics: Seq<TopicListing>) -> Seq<TopicListingView> {
    topics.map_values(|topic: TopicListing| topic@)
}

/// The names of `discovered` that are news to someone who knows `known`: in
/// the order of `discovered`, each name once, at its first occurrence.
pub open spec fn fresh(known: Seq<Seq<char>>, discovered: Seq<Seq<char>>) -> Seq<Seq<char>>
    decreases discovered.len(),
{
    if discovered.len() == 0 {
        Seq::empty()
    } else {
        let before = fresh(known, discovered.drop_last());
        let name = discovered.last();
        if known.contains(name) || before.contains(name) {
            before
        } else {
            before.push(name)
        }
    }
}

/// The topics of `discovered` whose names are news to someone who knows
/// `known`: in the order of `discovered`, each name once, at its first
/// occurrence.
pub open spec fn fresh_topics(
    known: Seq<Seq<char>>,
    discovered: Seq<TopicListingView>,
) -> Seq<TopicListingView>
    decreases discovered.len(),
{
    if discovered.len() == 0 {
        Seq::empty()
    } else {
        let before = fresh_topics(known, discovered.drop_last());
        let topic = discovered.last();
        if known.contains(topic.name) || topic_names(before).contains(topic.name) {
            before
        } else {
            before.push(topic)
        }
    }
}

/// The names of `topics`, in order.
pub open spec fn topic_names(topics: Seq<TopicListingView>) -> Seq<Seq<char>> {
    topics.map_values(|topic: TopicListingView| topic.name)
}

/// The events that announce the nodes `names`, in order.
pub open spec fn node_events(names: Seq<Seq<char>>) -> Seq<EventView> {
    names.map_values(|name: Seq<char>| EventView::ROSEvent { event: ROSEventView::NewNode(name) })
}

/// The events that announce `topics`, in order, each with the first of its
/// message types.
pub open spec fn topic_events(topics: Seq<TopicListingView>) -> Seq<EventView> {
    topics.map_values(
        |topic: TopicListingView|
            EventView::ROSEvent { event: ROSEventView::NewTopic(topic.name, topic.msg_types[0]) },
    )
}

/// The event that carries a payload received on the subscribed topic. Every
/// payload is forwarded, as it is.
pub fn forward_message(payload: String) -> (event: Event)
    ensures
        event@ == (EventView::ROSEvent { event: ROSEventView::SubscriptionMessage(payload@) }),
{
    Event::ROSEvent { event: ROSEvent::SubscriptionMessage(payload) }
}

/// Whether `name` is one of `names`.
fn is_known(names: &Vec<String>, name: &String) -> (found: bool)
    ensures
        found == texts(names@).contains(name@),
{
    let mut i: usize = 0;
    while i < names.len()
        invariant
            i <= names.len(),
            forall|j: int| 0 <= j < i ==> texts(names@)[j] != name@,
        decreases names.len() - i,
    {
        if names[i] == *name {
            assert(texts(names@)[i as int] == name@);
            return true;
        }
        i += 1;
    }
    false
}

/// The mathematical content of a [`GraphWatcher`]: the names it has seen, in
/// the order in which it saw them.
pub struct GraphWatcherView {
    pub known_topics: Seq<Seq<char>>,
    pub known_nodes: Seq<Seq<char>>,
}

/// What the graph watcher remembers between polls: the names of the topics
/// and of the nodes that it has announced. A name, once known, stays known.
pub struct GraphWatcher {
    known_topics: Vec<String>,
    known_nodes: Vec<String>,
}

impl View for GraphWatcher {
    type V = GraphWatcherView;

    closed spec fn view(&self) -> GraphWatcherView {
        GraphWatcherView {
            known_topics: texts(self.known_topics@),
            known_nodes: texts(self.known_nodes@),
        }
    }
}

impl GraphWatcher {
    /// A watcher that has seen nothing yet.
    pub fn new() -> (watcher: Self)
        ensures
            watcher@.known_topics == Seq::<Seq<char>>::empty(),
            watcher@.known_nodes == Seq::<Seq<char>>::empty(),
    {
        let watcher = GraphWatcher { known_topics: Vec::new(), known_nodes: Vec::new() };
        assert(watcher@.known_topics =~= Seq::empty());
        assert(watcher@.known_nodes =~= Seq::empty());
        watcher
    }

    /// The names of the topics seen so far, in the order in which they were
    /// seen.
    pub fn known_topics(&self) -> (names: &Vec<String>)
        ensures
            texts(names@) == self@.known_topics,
    {
        &self.known_topics
    }

    /// The names of the nodes seen so far, in the order in which they were
    /// seen.
    pub fn known_nodes(&self) -> (names: &Vec<String>)
        ensures
            texts(names@) == self@.known_nodes,
    {
        &self.known_nodes
    }

    /// Takes in a listing of the nodes of the graph: remembers the names
    /// that are new and hands back one event for each of them, in the order
    /// of the listing.
    pub fn discover_nodes(&mut self, discovered: &Vec<String>) -> (events: Vec<Event>)
        ensures
            event_views(events@) == node_events(fresh(old(self)@.known_nodes, texts(discovered@))),
            events@.len() == fresh(old(self)@.known_nodes, texts(discovered@)).len(),
            final(self)@.known_nodes == old(self)@.known_nodes + fresh(
                old(self)@.known_nodes,
                texts(discovered@),
            ),
            final(self)@.known_topics == old(self)@.known_topics,
    {
        let ghost known = self@.known_nodes;
        let ghost names = texts(discovered@);
        let mut events: Vec<Event> = Vec::new();
        let mut i: usize = 0;
        assert(names.take(0) =~= Seq::empty());
        assert(event_views(events@) =~= node_events(Seq::empty()));
        assert(self@.known_nodes =~= known + Seq::empty());
        while i < discovered.len()
            invariant
                i <= discovered.len(),
                names == texts(discovered@),
                event_views(events@) == node_events(fresh(known, names.take(i as int))),
                self@.known_nodes == known + fresh(known, names.take(i as int)),
                self@.known_topics == old(self)@.known_topics,
            decreases discovered.len() - i,
        {
            let ghost before = fresh(known, names.take(i as int));
            let ghost listed = self@.known_nodes;
            let ghost sent = event_views(events@);
            proof {
                assert(names.take(i + 1).drop_last() =~= names.take(i as int));
                assert(names.take(i + 1).last() == discovered@[i as int]@);
                lemma_concat_contains(known, before, discovered@[i as int]@);
            }
            if !is_known(&self.known_nodes, &discovered[i]) {
                self.known_nodes.push(discovered[i].clone());
                events.push(Event::ROSEvent { event: ROSEvent::NewNode(discovered[i].clone()) });
                proof {
                    let name = discovered@[i as int]@;
                    assert(self@.known_nodes =~= listed.push(name));
                    assert(listed.push(name) =~= known + before.push(name));
                    assert(event_views(events@) =~= sent.push(
                        EventView::ROSEvent { event: ROSEventView::NewNode(name) },
                    ));
                    assert(event_views(events@) =~= node_events(before.push(name)));
                }
            }
            i += 1;
        }
        assert(names.take(i as int) =~= names);
        assert(event_views(events@).len() == events@.len());
        events
    }

    /// Takes in a listing of the topics of the graph: remembers the names
    /// that are new and hands back one event for each of them, in the order
    /// of the listing, with the first message type of the topic. A listed
    /// topic whose name is not known yet must have a message type; of a
    /// known topic nothing is asked, and nothing is read but its name.
    pub fn discover_topics(&mut self, discovered: &Vec<TopicListing>) -> (events: Vec<Event>)
        requires
            forall|i: int|
                0 <= i < discovered@.len() && !old(self)@.known_topics.contains(
                    (#[trigger] discovered@[i]).name@,
                ) ==> discovered@[i].msg_types@.len() > 0,
        ensures
            event_views(events@) == topic_events(
                fresh_topics(old(self)@.known_topics, listings(discovered@)),
            ),
            events@.len() == fresh_topics(old(self)@.known_topics, listings(discovered@)).len(),
            final(self)@.known_topics == old(self)@.known_topics + topic_names(
                fresh_topics(old(self)@.known_topics, listings(discovered@)),
            ),
            final(self)@.known_nodes == old(self)@.known_nodes,
    {
        let ghost known = self@.known_topics;
        let ghost all = listings(discovered@);
        let mut events: Vec<Event> = Vec::new();
        let mut i: usize = 0;
        assert(all.take(0) =~= Seq::empty());
        assert(event_views(events@) =~= topic_events(Seq::empty()));
        assert(self@.known_topics =~= known + topic_names(Seq::empty()));
        while i < discovered.len()
            invariant
                i <= discovered.len(),
                all == listings(discovered@),
                forall|k: int|
                    0 <= k < discovered@.len() && !known.contains(
                        (#[trigger] discovered@[k]).name@,
                    ) ==> discovered@[k].msg_types@.len() > 0,
                event_views(events@) == topic_events(fresh_topics(known, all.take(i as int))),
                self@.known_topics == known + topic_names(fresh_topics(known, all.take(i as int))),
                self@.known_nodes == old(self)@.known_nodes,
            decreases discovered.len() - i,
        {
            let ghost before = fresh_topics(known, all.take(i as int));
            let ghost listed = self@.known_topics;
            let ghost sent = event_views(events@);
            let topic = &discovered[i];
            proof {
                assert(all.take(i + 1).drop_last() =~= all.take(i as int));
                assert(all.take(i + 1).last() == topic@);
                lemma_concat_contains(known, topic_names(before), topic@.name);
            }
            if !is_known(&self.known_topics, &topic.name) {
                self.known_topics.push(topic.name.clone());
                let msg_type = topic.msg_types[0].clone();
                events.push(
                    Event::ROSEvent { event: ROSEvent::NewTopic(topic.name.clone(), msg_type) },
                );
                proof {
                    assert(topic@.msg_types[0] == topic.msg_types@[0]@);
                    assert(self@.known_topics =~= listed.push(topic@.name));
                    assert(listed.push(topic@.name) =~= known + topic_names(before.push(topic@)));
                    assert(event_views(events@) =~= sent.push(
                        EventView::ROSEvent {
                            event: ROSEventView::NewTopic(topic@.name, topic@.msg_types[0]),
                        },
                    ));
                    assert(event_views(events@) =~= topic_events(before.push(topic@)));
                }
            }
            i += 1;
        }
        assert(all.take(i as int) =~= all);
        assert(event_views(events@).len() == events@.len());
        events
    }
}

/// What a poll announces is exactly what is news: a name is announced if and
/// only if it is listed and was not known, and no name is announced twice.
pub proof fn lemma_fresh_exact(known: Seq<Seq<char>>, discovered: Seq<Seq<char>>)
    ensures
        fresh(known, discovered).no_duplicates(),
        forall|name: Seq<char>| #[trigger]
            fresh(known, discovered).contains(name) <==> discovered.contains(name)
                && !known.contains(name),
    decreases discovered.len(),
{
    let result = fresh(known, discovered);
    if discovered.len() > 0 {
        let earlier = discovered.drop_last();
        let before = fresh(known, earlier);
        let last = discovered.last();
        lemma_fresh_exact(known, earlier);
        assert(discovered =~= earlier.push(last));
        assert forall|name: Seq<char>| #[trigger]
            result.contains(name) <==> discovered.contains(name) && !known.contains(
                name,
            ) by {
            lemma_concat_contains(earlier, seq![last], name);
            lemma_concat_contains(before, seq![last], name);
            assert(earlier.push(last) =~= earlier + seq![last]);
            assert(before.push(last) =~= before + seq![last]);
            assert(seq![last].contains(name) <==> name == last) by {
                if name == last {
                    assert(seq![last][0] == name);
                }
            }
            assert(before.contains(name) <==> earlier.contains(name) && !known.contains(name));
        }
        if !(known.contains(last) || before.contains(last)) {
            assert forall|i: int, j: int|
                0 <= i < result.len() && 0 <= j < result.len() && i != j implies result[i]
                != result[j] by {
                if i < before.len() {
                    assert(before.contains(before[i]));
                }
                if j < before.len() {
                    assert(before.contains(before[j]));
                }
            }
        }
    }
}

/// A name, once announced, is known: the same listing, or any part of it,
/// polled again announces nothing.
pub proof fn lemma_fresh_once(
    known: Seq<Seq<char>>,
    discovered: Seq<Seq<char>>,
    again: Seq<Seq<char>>,
)
    requires
        forall|name: Seq<char>| again.contains(name) ==> discovered.contains(name),
    ensures
        fresh(known + fresh(known, discovered), again) == Seq::<Seq<char>>::empty(),
{
    let remembered = known + fresh(known, discovered);
    lemma_fresh_exact(known, discovered);
    lemma_fresh_exact(remembered, again);
    let result = fresh(remembered, again);
    if result.len() > 0 {
        let name = result[0];
        assert(result.contains(name));
        lemma_concat_contains(known, fresh(known, discovered), name);
    }
    assert(result =~= Seq::empty());
}

/// What was known stays known, and stays free of repetitions, when the news
/// of a poll is added to it.
pub proof fn lemma_known_grows(known: Seq<Seq<char>>, discovered: Seq<Seq<char>>)
    requires
        known.no_duplicates(),
    ensures
        known.is_prefix_of(known + fresh(known, discovered)),
        (known + fresh(known, discovered)).no_duplicates(),
        forall|name: Seq<char>|
            discovered.contains(name) ==> #[trigger] (known + fresh(known, discovered)).contains(
                name,
            ),
{
    let news = fresh(known, discovered);
    let all = known + news;
    lemma_fresh_exact(known, discovered);
    assert forall|i: int, j: int| 0 <= i < all.len() && 0 <= j < all.len() && i != j implies all[i]
        != all[j] by {
        if i < known.len() && j >= known.len() {
            assert(known.contains(known[i]));
            assert(news.contains(news[j - known.len()]));
        }
        if j < known.len() && i >= known.len() {
            assert(known.contains(known[j]));
            assert(news.contains(news[i - known.len()]));
        }
    }
    assert forall|name: Seq<char>| discovered.contains(name) implies #[trigger] all.contains(
        name,
    ) by {
        lemma_concat_contains(known, news, name);
    }
}

/// The topics that a poll announces are those that a poll of their names
/// alone would announce.
pub proof fn lemma_fresh_topic_names(known: Seq<Seq<char>>, discovered: Seq<TopicListingView>)
    ensures
        topic_names(fresh_topics(known, discovered)) == fresh(known, topic_names(discovered)),
    decreases discovered.len(),
{
    if discovered.len() > 0 {
        let earlier = discovered.drop_last();
        lemma_fresh_topic_names(known, earlier);
        assert(topic_names(discovered).drop_last() =~= topic_names(earlier));
        let before = fresh_topics(known, earlier);
        assert(topic_names(before.push(discovered.last())) =~= topic_names(before).push(
            discovered.last().name,
        ));
    }
    assert(topic_names(fresh_topics(known, discovered)) =~= fresh(
        known,
        topic_names(discovered),
    ));
}

/// A name is in a concatenation exactly if it is in one of the two parts.
pub proof fn lemma_concat_contains(a: Seq<Seq<char>>, b: Seq<Seq<char>>, name: Seq<char>)
    ensures
        (a + b).contains(name) <==> a.contains(name) || b.contains(name),
{
    if a.contains(name) {
        let i = choose|i: int| 0 <= i < a.len() && a[i] == name;
        assert((a + b)[i] == name);
    }
    if b.contains(name) {
        let i = choose|i: int| 0 <= i < b.len() && b[i] == name;
        assert((a + b)[a.len() + i] == name);
    }
    if (a + b).contains(name) {
        let i = choose|i: int| 0 <= i < (a + b).len() && (a + b)[i] == name;
        if i < a.len() {
            assert(a[i] == name);
        } else {
            assert(b[i - a.len()] == name);
        }
    }
}

} // verus!
