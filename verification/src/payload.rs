//! The display payload handed to the chat surface: one structured message
//! with an optional labeled field and a single row of controls.

use vstd::prelude::*;
use crate::controls::{Control, ControlView};

verus! {

/// Largest body the chat surface accepts, in characters.
pub const BODY_CAP: usize = 4096;

/// A labeled field shown below the body.
pub struct EmbedField {
    pub name: String,
    pub value: String,
}

pub struct EmbedFieldView {
    pub name: Seq<char>,
    pub value: Seq<char>,
}

impl View for EmbedField {
    type V = EmbedFieldView;

    open spec fn view(&self) -> EmbedFieldView {
        EmbedFieldView { name: self.name@, value: self.value@ }
    }
}

/// Everything one rendered message carries.
pub struct Payload {
    pub title: String,
    pub body: String,
    pub colour: u32,
    pub footer: String,
    pub image: Option<String>,
    /// Creation time shown on the message, in seconds since the epoch.
    pub timestamp: Option<i64>,
    pub field: Option<EmbedField>,
    pub controls: Vec<Control>,
}

pub struct PayloadView {
    pub title: Seq<char>,
    pub body: Seq<char>,
    pub colour: u32,
    pub footer: Seq<char>,
    pub image: Option<Seq<char>>,
    pub timestamp: Option<i64>,
    pub field: Option<EmbedFieldView>,
    pub controls: Seq<ControlView>,
}

impl View for Payload {
    type V = PayloadView;

    open spec fn view(&self) -> PayloadView {
        PayloadView {
            title: self.title@,
            body: self.body@,
            colour: self.colour,
            footer: self.footer@,
            image: match self.image {
                Some(i) => Some(i@),
                None => None,
            },
            timestamp: self.timestamp,
            field: match self.field {
                Some(f) => Some(f@),
                None => None,
            },
            controls: self.controls@.map_values(|c: Control| c@),
        }
    }
}

impl Payload {
    /// Removes every control, leaving the message itself as it stands; this
    /// is what an expired session applies to its final render.
    pub fn strip_controls(&mut self)
        ensures
            final(self)@ == (PayloadView { controls: Seq::empty(), ..old(self)@ }),
            final(self)@.controls.len() == 0,
    {
        self.controls = Vec::new();
        proof {
            assert(self.controls@.map_values(|c: Control| c@) =~= Seq::<ControlView>::empty());
        }
    }
}

} // verus!
