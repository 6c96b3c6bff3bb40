//! The interpreter that runs a plugin's script, and what a script can reach
//! from inside it: the event, three printing functions and an HTTP client,
//! besides what the scripting language itself brings.
//!
//! A new interpreter of the scripting language comes with a resolver that
//! reads the modules which a script imports from files. The sandbox puts in
//! its place one that resolves nothing, so that an `import` fails.
//!
//! What a script hands to `print`, to `debug` and to the three printing
//! functions is collected and handed back with the result, for the host to
//! write out. Of what goes to `debug` the text is kept, not the place in the
//! script that the interpreter gives with it.

use rhai::packages::Package;
use std::cell::RefCell;
use std::rc::Rc;
use vstd::prelude::*;
use crate::plugins::color::{cprint, Color};
use crate::plugins::encoding::{
    EventData,
    EventDataView,
    FieldValue,
    FieldValueView,
    Payload,
    PayloadView,
};

verus! {

/// The variable under which a script finds the event.
pub const EVENT_VARIABLE: &'static str = "event_data";

/// The function that prints a message in a color given by name.
pub const COLOR_PRINT_FUNCTION: &'static str = "cprint";

/// The function that prints a message in red.
pub const RED_PRINT_FUNCTION: &'static str = "print_red";

/// The function that prints a message in green.
pub const GREEN_PRINT_FUNCTION: &'static str = "print_green";

/// The namespace under which the HTTP package puts its client.
pub const HTTP_NAMESPACE: &'static str = "http";

/// One thing that a script sent to the console.
#[derive(Debug, Clone)]
pub enum Emission {
    /// A line for the output stream, without color.
    Line(String),
    /// A line for the output stream, in a color.
    Colored(Color, String),
    /// A line for the error stream.
    Diagnostic(String),
    /// What a script handed to `debug`, as the interpreter shows the value.
    Debug(String),
}

pub enum EmissionView {
    Line(Seq<char>),
    Colored(Color, Seq<char>),
    Diagnostic(Seq<char>),
    Debug(Seq<char>),
}

impl DeepView for Emission {
    type V = EmissionView;

    open spec fn deep_view(&self) -> EmissionView {
        match *self {
            Emission::Line(text) => EmissionView::Line(text@),
            Emission::Colored(color, text) => EmissionView::Colored(color, text@),
            Emission::Diagnostic(text) => EmissionView::Diagnostic(text@),
            Emission::Debug(text) => EmissionView::Debug(text@),
        }
    }
}

impl View for Emission {
    type V = EmissionView;

    open spec fn view(&self) -> EmissionView {
        self.deep_view()
    }
}

/// `rhai::Engine`, the interpreter. Of its inside only [`capabilities`] and
/// [`resolves_imports`] are spoken of.
#[verifier::external_type_specification]
#[verifier::external_body]
pub struct ExEngine(rhai::Engine);

/// `rhai::Dynamic`, a value of the scripting language. Of its inside only
/// [`held_string`], [`held_items`] and [`held_entries`] are spoken of.
#[verifier::external_type_specification]
#[verifier::external_body]
pub struct ExDynamic(rhai::Dynamic);

/// `std::cell::RefCell`. Nothing is known of its inside.
#[verifier::external_type_specification]
#[verifier::external_body]
#[verifier::reject_recursive_types(T)]
pub struct ExRefCell<T: ?Sized>(RefCell<T>);

/// What the host has added to an interpreter for scripts to call: the
/// names of the functions that it registered one by one, and the
/// namespaces of the packages that it registered.
pub uninterp spec fn capabilities(engine: rhai::Engine) -> Set<Seq<char>>;

/// Whether the module resolver of an interpreter gives a module for any
/// path that a script imports.
pub uninterp spec fn resolves_imports(engine: rhai::Engine) -> bool;

/// The string that a value of the scripting language holds, where it is a
/// string.
pub uninterp spec fn held_string(value: rhai::Dynamic) -> Option<Seq<char>>;

/// The items that a value of the scripting language holds, in their order,
/// where it is an array.
pub uninterp spec fn held_items(value: rhai::Dynamic) -> Option<Seq<rhai::Dynamic>>;

/// What a value of the scripting language holds under each of its keys,
/// where it is an object map.
pub uninterp spec fn held_entries(value: rhai::Dynamic) -> Option<Map<Seq<char>, rhai::Dynamic>>;

/// Whether a map holds the entries of a list and nothing else: each key of
/// the list is a key of the map, and under each key of the map stands the
/// value of an entry with that key.
pub open spec fn holds_each(
    held: Map<Seq<char>, rhai::Dynamic>,
    entries: Seq<(String, rhai::Dynamic)>,
) -> bool {
    &&& forall|i: int| 0 <= i < entries.len() ==> held.dom().contains(#[trigger] entries[i].0@)
    &&& forall|key: Seq<char>| #[trigger]
        held.dom().contains(key) ==> exists|i: int|
            0 <= i < entries.len() && (#[trigger] entries[i]).0@ == key && held[key] == entries[i].1
}

/// Whether a value is a string, and this one.
pub open spec fn is_text(value: rhai::Dynamic, text: Seq<char>) -> bool {
    &&& held_string(value) == Some(text)
    &&& held_items(value) is None
    &&& held_entries(value) is None
}

/// Whether a value is an array of strings, and of these.
pub open spec fn is_text_list(value: rhai::Dynamic, texts: Seq<Seq<char>>) -> bool {
    &&& held_string(value) is None
    &&& held_entries(value) is None
    &&& held_items(value) matches Some(items)
    &&& items.len() == texts.len()
    &&& forall|i: int| 0 <= i < items.len() ==> is_text(#[trigger] items[i], texts[i])
}

/// Whether a value stands for the value of a field.
pub open spec fn is_field(value: rhai::Dynamic, field: FieldValueView) -> bool {
    match field {
        FieldValueView::Text(text) => is_text(value, text),
        FieldValueView::List(texts) => is_text_list(value, texts),
    }
}

/// Whether a value is an object map that stands for a record: its keys are
/// the names of the fields, and under each key stands the value of a field
/// of that name.
pub open spec fn is_record(value: rhai::Dynamic, fields: Seq<(Seq<char>, FieldValueView)>) -> bool {
    &&& held_string(value) is None
    &&& held_items(value) is None
    &&& held_entries(value) matches Some(held)
    &&& forall|i: int| 0 <= i < fields.len() ==> held.dom().contains(#[trigger] fields[i].0)
    &&& forall|key: Seq<char>| #[trigger]
        held.dom().contains(key) ==> exists|i: int|
            0 <= i < fields.len() && (#[trigger] fields[i]).0 == key && is_field(
                held[key],
                fields[i].1,
            )
}

/// Whether a value stands for what an event carries.
pub open spec fn is_payload(value: rhai::Dynamic, payload: PayloadView) -> bool {
    match payload {
        PayloadView::Text(text) => is_text(value, text),
        PayloadView::Record(fields) => is_record(value, fields),
    }
}

/// Whether a value stands for an encoded event: it is the bare string, or
/// an object map whose one key is the name of the event, with what the
/// event carries under it.
pub open spec fn is_event(value: rhai::Dynamic, data: EventDataView) -> bool {
    match data {
        EventDataView::Name(name) => is_text(value, name),
        EventDataView::Tagged(tag, payload) => {
            &&& held_string(value) is None
            &&& held_items(value) is None
            &&& held_entries(value) matches Some(held)
            &&& held.dom() == set![tag]
            &&& is_payload(held[tag], payload)
        },
    }
}

/// What a script can call besides the language itself: the three printing
/// functions and the HTTP client.
pub open spec fn sandbox_capabilities() -> Set<Seq<char>> {
    set![COLOR_PRINT_FUNCTION@, RED_PRINT_FUNCTION@, GREEN_PRINT_FUNCTION@, HTTP_NAMESPACE@]
}

/// Where the functions registered in an interpreter leave what a script
/// prints.
type Sink = Rc<RefCell<Vec<Emission>>>;

/// `RefCell::new` on an empty list, behind a shared pointer. Nothing is
/// claimed of the result.
#[verifier::external_body]
fn sink_new() -> Sink {
    Rc::new(RefCell::new(Vec::new()))
}

/// `RefCell::borrow_mut`, to append `emitted` to the list. Nothing is
/// claimed of the list afterwards.
#[verifier::external_body]
fn sink_extend(sink: &Sink, emitted: Vec<Emission>) {
    sink.borrow_mut().extend(emitted);
}

/// `RefCell::take`: hands out the list and leaves an empty one. Nothing is
/// claimed of the result.
#[verifier::external_body]
fn sink_take(sink: &Sink) -> Vec<Emission> {
    sink.take()
}

/// `rhai::Engine::new`. The contract claims that the host has added
/// nothing to a new interpreter.
#[verifier::external_body]
fn engine_new() -> (engine: rhai::Engine)
    ensures
        capabilities(engine) == Set::<Seq<char>>::empty(),
{
    rhai::Engine::new()
}

/// `rhai::Engine::on_print`, with `record_print` as the callback. The
/// contract claims that this adds nothing for scripts to call.
#[verifier::external_body]
fn engine_capture_print(engine: &mut rhai::Engine, sink: &Sink)
    ensures
        capabilities(*final(engine)) == capabilities(*old(engine)),
{
    let sink = sink.clone();
    engine.on_print(move |text| record_print(&sink, text));
}

/// `rhai::Engine::on_debug`, with `record_debug` as the callback, which is
/// handed the text and neither the source nor the position. The contract
/// claims that this adds nothing for scripts to call.
#[verifier::external_body]
fn engine_capture_debug(engine: &mut rhai::Engine, sink: &Sink)
    ensures
        capabilities(*final(engine)) == capabilities(*old(engine)),
{
    let sink = sink.clone();
    engine.on_debug(move |text, _, _| record_debug(&sink, text));
}

/// `rhai::Engine::set_module_resolver`, with a
/// `rhai::module_resolvers::DummyModuleResolver`, whose `resolve` gives an
/// error for every path. The contract claims that the interpreter then
/// resolves no import, and that this adds nothing for scripts to call.
#[verifier::external_body]
fn engine_refuse_imports(engine: &mut rhai::Engine)
    ensures
        !resolves_imports(*final(engine)),
        capabilities(*final(engine)) == capabilities(*old(engine)),
{
    engine.set_module_resolver(rhai::module_resolvers::DummyModuleResolver::new());
}

/// `rhai::Engine::register_fn`, for a function of a message and a color
/// name that calls `record_color_print`. The contract claims that the
/// function is added under its name, and nothing else.
#[verifier::external_body]
fn engine_register_color_print(engine: &mut rhai::Engine, function: &str, sink: &Sink)
    ensures
        capabilities(*final(engine)) == capabilities(*old(engine)).insert(function@),
{
    let sink = sink.clone();
    engine.register_fn(
        function,
        move |message: &str, color_name: &str| record_color_print(&sink, message, color_name),
    );
}

/// `rhai::Engine::register_fn`, for a function of a message that calls
/// `record_color_print` with `color_name`. The contract claims that the
/// function is added under its name, and nothing else.
#[verifier::external_body]
fn engine_register_print_in(
    engine: &mut rhai::Engine,
    function: &str,
    color_name: &str,
    sink: &Sink,
)
    ensures
        capabilities(*final(engine)) == capabilities(*old(engine)).insert(function@),
{
    let sink = sink.clone();
    let color_name = color_name.to_owned();
    engine.register_fn(function, move |message: &str| record_color_print(&sink, message, &color_name));
}

/// `rhai_http::HttpPackage::register_into_engine` on a new package. The
/// contract claims that the package is added under its namespace, and
/// nothing else.
#[verifier::external_body]
fn engine_register_http(engine: &mut rhai::Engine)
    ensures
        capabilities(*final(engine)) == capabilities(*old(engine)).insert(HTTP_NAMESPACE@),
{
    rhai_http::HttpPackage::new().register_into_engine(engine);
}

/// `rhai::Engine::eval_with_scope`, in a new scope that holds `value` under
/// `variable`. The value that the script ends with is dropped; an error is
/// handed back as its text. Nothing is claimed of the result: it depends on
/// the script and on what the script reaches.
#[verifier::external_body]
fn engine_eval(engine: &rhai::Engine, variable: &str, value: rhai::Dynamic, script: &str) -> Result<
    (),
    String,
> {
    let mut scope = rhai::Scope::new();
    scope.push(variable, value);
    match engine.eval_with_scope::<rhai::Dynamic>(&mut scope, script) {
        Ok(_) => Ok(()),
        Err(error) => Err(error.to_string()),
    }
}

/// `rhai::Dynamic` from a string. The contract claims that the result is a
/// string and holds the argument.
#[verifier::external_body]
fn dynamic_text(text: &str) -> (value: rhai::Dynamic)
    ensures
        held_string(value) == Some(text@),
        held_items(value) is None,
        held_entries(value) is None,
{
    text.into()
}

/// `rhai::Dynamic::from_array`. The contract claims that the result is an
/// array and holds the items of the argument, in their order.
#[verifier::external_body]
fn dynamic_list(items: Vec<rhai::Dynamic>) -> (value: rhai::Dynamic)
    ensures
        held_items(value) == Some(items@),
        held_string(value) is None,
        held_entries(value) is None,
{
    rhai::Dynamic::from_array(items)
}

/// `rhai::Dynamic::from_map`, on the map that holds `entries`. The contract
/// claims that the result is an object map whose keys are those of the
/// entries, with the value of an entry of that key under each; which
/// entry, where several have one key, is left open.
#[verifier::external_body]
fn dynamic_map(entries: Vec<(String, rhai::Dynamic)>) -> (value: rhai::Dynamic)
    ensures
        held_string(value) is None,
        held_items(value) is None,
        held_entries(value) is Some,
        holds_each(held_entries(value)->Some_0, entries@),
{
    rhai::Dynamic::from_map(entries.into_iter().map(|(key, value)| (key.into(), value)).collect())
}

/// Notes a line that a script printed.
fn record_print(sink: &Sink, text: &str) {
    let mut emitted: Vec<Emission> = Vec::new();
    emitted.push(Emission::Line(text.to_owned()));
    sink_extend(sink, emitted);
}

/// Notes what a script handed to `debug`.
fn record_debug(sink: &Sink, text: &str) {
    let mut emitted: Vec<Emission> = Vec::new();
    emitted.push(Emission::Debug(text.to_owned()));
    sink_extend(sink, emitted);
}

/// Notes what a script printed in a color.
fn record_color_print(sink: &Sink, message: &str, color_name: &str) {
    sink_extend(sink, cprint(message, color_name));
}

/// The array of strings that stands for a list of texts.
fn list_to_dynamic(items: &Vec<String>) -> (value: rhai::Dynamic)
    ensures
        is_text_list(value, items.deep_view()),
{
    let mut values: Vec<rhai::Dynamic> = Vec::new();
    let mut i: usize = 0;
    while i < items.len()
        invariant
            i <= items.len(),
            values.len() == i,
            forall|j: int| 0 <= j < i ==> is_text(#[trigger] values[j], items[j]@),
        decreases items.len() - i,
    {
        values.push(dynamic_text(items[i].as_str()));
        i += 1;
    }
    dynamic_list(values)
}

/// The value that stands for the value of a field.
fn field_to_dynamic(field: &FieldValue) -> (value: rhai::Dynamic)
    ensures
        is_field(value, field@),
{
    match field {
        FieldValue::Text(text) => dynamic_text(text.as_str()),
        FieldValue::List(items) => list_to_dynamic(items),
    }
}

/// The value that stands for what an event carries: a string, or an
/// object map of the fields.
fn payload_to_dynamic(payload: &Payload) -> (value: rhai::Dynamic)
    ensures
        is_payload(value, payload@),
{
    match payload {
        Payload::Text(text) => dynamic_text(text.as_str()),
        Payload::Record(fields) => {
            let mut entries: Vec<(String, rhai::Dynamic)> = Vec::new();
            let mut i: usize = 0;
            while i < fields.len()
                invariant
                    i <= fields.len(),
                    entries.len() == i,
                    forall|j: int|
                        0 <= j < i ==> (#[trigger] entries[j]).0@ == fields[j].0@ && is_field(
                            entries[j].1,
                            fields[j].1@,
                        ),
                decreases fields.len() - i,
            {
                entries.push((fields[i].0.clone(), field_to_dynamic(&fields[i].1)));
                i += 1;
            }
            let ghost built = entries@;
            let value = dynamic_map(entries);
            proof {
                let named = payload@->Record_0;
                let held = held_entries(value)->Some_0;
                assert forall|j: int| 0 <= j < named.len() implies held.dom().contains(
                    #[trigger] named[j].0,
                ) by {
                    assert(built[j].0@ == named[j].0);
                }
                assert forall|key: Seq<char>| #[trigger] held.dom().contains(key) implies exists|
                    j: int,
                |
                    0 <= j < named.len() && (#[trigger] named[j]).0 == key && is_field(
                        held[key],
                        named[j].1,
                    ) by {
                    let j = choose|j: int|
                        0 <= j < built.len() && (#[trigger] built[j]).0@ == key && held[key]
                            == built[j].1;
                    assert(named[j].0 == key && is_field(held[key], named[j].1));
                }
            }
            value
        },
    }
}

/// The value of the scripting language that stands for an encoded event: a
/// string, or a map with one key.
fn to_dynamic(data: &EventData) -> (value: rhai::Dynamic)
    ensures
        is_event(value, data@),
{
    match data {
        EventData::Name(name) => dynamic_text(name.as_str()),
        EventData::Tagged(tag, payload) => {
            let mut entries: Vec<(String, rhai::Dynamic)> = Vec::new();
            entries.push((tag.clone(), payload_to_dynamic(payload)));
            let ghost built = entries@;
            let value = dynamic_map(entries);
            proof {
                let held = held_entries(value)->Some_0;
                assert(held.dom().contains(built[0].0@));
                assert(held.dom() =~= set![tag@]);
            }
            value
        },
    }
}

/// A new interpreter with the capabilities that a script is given and
/// nothing else of the host, which resolves no import. The resolver is
/// replaced last, whatever was registered before.
fn new_sandbox(sink: &Sink) -> (engine: rhai::Engine)
    ensures
        capabilities(engine) == sandbox_capabilities(),
        !resolves_imports(engine),
{
    let mut engine = engine_new();
    engine_capture_print(&mut engine, sink);
    engine_capture_debug(&mut engine, sink);
    engine_register_color_print(&mut engine, COLOR_PRINT_FUNCTION, sink);
    engine_register_print_in(&mut engine, RED_PRINT_FUNCTION, "red", sink);
    engine_register_print_in(&mut engine, GREEN_PRINT_FUNCTION, "green", sink);
    engine_register_http(&mut engine);
    engine_refuse_imports(&mut engine);
    engine
}

/// Runs `script` in a new interpreter with `event` bound to the event
/// variable. Hands back what the script printed, and the interpreter's
/// diagnostic if the script failed.
pub(crate) fn evaluate(script: &str, event: &EventData) -> (Vec<Emission>, Result<(), String>) {
    let sink = sink_new();
    let engine = new_sandbox(&sink);
    let result = engine_eval(&engine, EVENT_VARIABLE, to_dynamic(event), script);
    (sink_take(&sink), result)
}

} // verus!
