//! Finds clock times mentioned in chat messages ("3pm", "14:30") and translates them from the
//! author's timezone into a reader's.
//!
//! The pipeline: [`matcher`] finds the mentions, [`resolver`] turns each into a time of day,
//! [`instant`] anchors it to today's date in the author's zone and reads it in another zone,
//! [`compose`] writes the notification, and [`engine`] ties the steps together. Zone data and
//! rendering come from chrono-tz, through [`zone`].

pub mod matcher;
pub mod zone;
pub mod resolver;
pub mod instant;
pub mod compose;
pub mod engine;
pub mod command;
