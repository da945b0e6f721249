//! The recording configuration record and its typed field values.
//!
//! The shared store that holds a [`Config`] at run time (behind a
//! read-write lock, with an asynchronous persistence call) is an external
//! collaborator; this module models the record itself and the typed
//! assignment of a value to one of its fields.  The output-path field of the
//! real store is an opaque platform path changed only through the main loop's
//! file picker, so it does not appear here.

use vstd::prelude::*;

verus! {

/// Video quality preset.
#[derive(Clone, Copy, Debug, PartialEq, Eq, Structural)]
pub enum Quality {
    Medium,
    High,
    VeryHigh,
    Ultra,
}

/// Container format for saved replays.
#[derive(Clone, Copy, Debug, PartialEq, Eq, Structural)]
pub enum Container {
    MKV,
    MP4,
    WEBM,
    FLV,
}

/// Identifies one settable field of the configuration record.
#[derive(Clone, Copy, Debug, PartialEq, Eq, Structural)]
pub enum Field {
    Framerate,
    ReplayDurationSecs,
    Quality,
    Container,
}

/// A strongly typed value for one configuration field.
#[derive(Clone, Copy, Debug, PartialEq, Eq, Structural)]
pub enum FieldValue {
    /// A numeric value (framerate, duration in seconds).
    Count(u64),
    Quality(Quality),
    Container(Container),
}

/// The recording settings mutated through the tray menu.
#[derive(Clone, Copy, Debug, PartialEq, Eq, Structural)]
pub struct Config {
    pub framerate: u64,
    pub replay_duration_secs: u64,
    pub quality: Quality,
    pub container: Container,
}

/// Whether `value`'s variant is the one `field` stores.  Assignments are
/// well typed by construction: a numeric value goes to a numeric field, a
/// quality preset to the quality field, and so on.
pub open spec fn value_fits_field(field: Field, value: FieldValue) -> bool {
    match field {
        Field::Framerate => value is Count,
        Field::ReplayDurationSecs => value is Count,
        Field::Quality => value is Quality,
        Field::Container => value is Container,
    }
}

/// Whether custom (free-form numeric) values make sense for `field`.
pub open spec fn field_is_numeric(field: Field) -> bool {
    field is Framerate || field is ReplayDurationSecs
}

/// The value currently held by `field` in `c`.
pub open spec fn spec_field_value(c: Config, field: Field) -> FieldValue {
    match field {
        Field::Framerate => FieldValue::Count(c.framerate),
        Field::ReplayDurationSecs => FieldValue::Count(c.replay_duration_secs),
        Field::Quality => FieldValue::Quality(c.quality),
        Field::Container => FieldValue::Container(c.container),
    }
}

/// `c` with `field` set to `value` and every other field unchanged.
pub open spec fn spec_set_field(c: Config, field: Field, value: FieldValue) -> Config {
    match (field, value) {
        (Field::Framerate, FieldValue::Count(n)) => Config { framerate: n, ..c },
        (Field::ReplayDurationSecs, FieldValue::Count(n)) => Config {
            replay_duration_secs: n,
            ..c
        },
        (Field::Quality, FieldValue::Quality(q)) => Config { quality: q, ..c },
        (Field::Container, FieldValue::Container(f)) => Config { container: f, ..c },
        _ => c,
    }
}

impl Config {
    /// Read the value currently held by `field`.
    pub fn field_value(&self, field: Field) -> (v: FieldValue)
        ensures
            v == spec_field_value(*self, field),
            value_fits_field(field, v),
    {
        match field {
            Field::Framerate => FieldValue::Count(self.framerate),
            Field::ReplayDurationSecs => FieldValue::Count(self.replay_duration_secs),
            Field::Quality => FieldValue::Quality(self.quality),
            Field::Container => FieldValue::Container(self.container),
        }
    }

    /// Assign `value` to `field`, leaving every other field as it was.
    pub fn set_field(&mut self, field: Field, value: FieldValue)
        requires
            value_fits_field(field, value),
        ensures
            *final(self) == spec_set_field(*old(self), field, value),
            spec_field_value(*final(self), field) == value,
            forall|g: Field| g != field ==> spec_field_value(*final(self), g) == spec_field_value(
                *old(self),
                g,
            ),
    {
        match (field, value) {
            (Field::Framerate, FieldValue::Count(n)) => {
                self.framerate = n;
            },
            (Field::ReplayDurationSecs, FieldValue::Count(n)) => {
                self.replay_duration_secs = n;
            },
            (Field::Quality, FieldValue::Quality(q)) => {
                self.quality = q;
            },
            (Field::Container, FieldValue::Container(f)) => {
                self.container = f;
            },
            _ => {
            },
        }
    }
}

/// Assigning a well-typed value to a field stores exactly that value there
/// and leaves every other field as it was.
pub proof fn lemma_set_field_frame(c: Config, field: Field, value: FieldValue)
    requires
        value_fits_field(field, value),
    ensures
        spec_field_value(spec_set_field(c, field, value), field) == value,
        forall|g: Field|
            g != field ==> spec_field_value(spec_set_field(c, field, value), g)
                == spec_field_value(c, g),
{
}

} // verus!
