//! The dynamic form in which an event reaches a script.

use vstd::prelude::*;

verus! {

/// The value of one named field of an event.
#[derive(Debug, Clone)]
pub enum FieldValue {
    Text(String),
    List(Vec<String>),
}

pub enum FieldValueView {
    Text(Seq<char>),
    List(Seq<Seq<char>>),
}

impl View for FieldValue {
    type V = FieldValueView;

    open spec fn view(&self) -> FieldValueView {
        match *self {
            FieldValue::Text(text) => FieldValueView::Text(text@),
            FieldValue::List(items) => FieldValueView::List(items.deep_view()),
        }
    }
}

/// What an event carries under its name: its single field, or a record of
/// its named fields in the order of their declaration.
#[derive(Debug, Clone)]
pub enum Payload {
    Text(String),
    Record(Vec<(String, FieldValue)>),
}

pub enum PayloadView {
    Text(Seq<char>),
    Record(Seq<(Seq<char>, FieldValueView)>),
}

impl View for Payload {
    type V = PayloadView;

    open spec fn view(&self) -> PayloadView {
        match *self {
            Payload::Text(text) => PayloadView::Text(text@),
            Payload::Record(fields) => PayloadView::Record(
                Seq::new(fields@.len(), |i: int| (fields@[i].0@, fields@[i].1@)),
            ),
        }
    }
}

/// An encoded event: a bare string, or a mapping with exactly one key.
#[derive(Debug, Clone)]
pub enum EventData {
    Name(String),
    Tagged(String, Payload),
}

pub enum EventDataView {
    Name(Seq<char>),
    Tagged(Seq<char>, PayloadView),
}

impl View for EventData {
    type V = EventDataView;

    open spec fn view(&self) -> EventDataView {
        match *self {
            EventData::Name(name) => EventDataView::Name(name@),
            EventData::Tagged(tag, payload) => EventDataView::Tagged(tag@, payload@),
        }
    }
}

} // verus!
