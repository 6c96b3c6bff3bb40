//! The events of one run of the host, in the order in which they are sent.
//!
//! The host sends an event to all plugins and waits for all of them before
//! it sends the next.

use vstd::prelude::*;
use crate::plugins::event::{Event, EventView};
use crate::plugins::loader::{Plugin, PluginView};

verus! {

/// The events that surround the loading of the plugins: the beginning, one
/// event for each plugin that was loaded, and the end.
pub open spec fn registration(plugins: Seq<PluginView>) -> Seq<EventView> {
    seq![EventView::PluginRegistrationInit] + plugins.map_values(
        |plugin: PluginView| EventView::PluginRegistered(plugin.manifest.name),
    ) + seq![EventView::PluginRegistrationEnd]
}

/// The events that surround the run of a command.
pub open spec fn execution(command: Seq<char>, args: Seq<Seq<char>>) -> Seq<EventView> {
    seq![
        EventView::CliCommandExecutionInit,
        EventView::CliCommandExecutionRun { command, args },
        EventView::CliCommandExecutionEnd,
    ]
}

/// The views of events.
pub open spec fn event_views(events: Seq<Event>) -> Seq<EventView> {
    events.map_values(|event: Event| event@)
}

/// The events that surround the loading of the plugins.
pub fn registration_events(plugins: &Vec<Plugin>) -> (events: Vec<Event>)
    ensures
        event_views(events@) == registration(plugins.deep_view()),
{
    let ghost all = plugins.deep_view();
    let ghost named = all.map_values(
        |plugin: PluginView| EventView::PluginRegistered(plugin.manifest.name),
    );
    let mut events: Vec<Event> = Vec::new();
    events.push(Event::PluginRegistrationInit);
    let mut i: usize = 0;
    while i < plugins.len()
        invariant
            i <= plugins.len(),
            all == plugins.deep_view(),
            named == all.map_values(
                |plugin: PluginView| EventView::PluginRegistered(plugin.manifest.name),
            ),
            event_views(events@) == seq![EventView::PluginRegistrationInit] + named.take(i as int),
        decreases plugins.len() - i,
    {
        let ghost before = event_views(events@);
        let event = Event::PluginRegistered(plugins[i].manifest.name.clone());
        events.push(event);
        assert(event_views(events@) =~= before.push(event@));
        i += 1;
    }
    events.push(Event::PluginRegistrationEnd);
    assert(named.take(i as int) =~= named);
    events
}

/// The events that surround the run of a command.
pub fn execution_events(command: &str, args: &Vec<String>) -> (events: Vec<Event>)
    ensures
        event_views(events@) == execution(command@, args.deep_view()),
{
    let copied = args.clone();
    let mut events: Vec<Event> = Vec::new();
    events.push(Event::CliCommandExecutionInit);
    events.push(Event::CliCommandExecutionRun { command: command.to_owned(), args: copied });
    events.push(Event::CliCommandExecutionEnd);
    events
}

} // verus!
