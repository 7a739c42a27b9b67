//! The configuration of the broker, and its clock.

use chrono::NaiveDateTime;
use vstd::prelude::*;

verus! {

/// `chrono::NaiveDateTime`, a date and time without a time zone. Nothing of
/// its value is visible to the verifier.
#[verifier::external_type_specification]
#[verifier::external_body]
pub struct ExNaiveDateTime(NaiveDateTime);

/// The form in which the configuration writes the epoch: year, month and day,
/// a blank, then hours, minutes and seconds.
pub const EPOCH_FORMAT: &'static str = "%Y-%m-%d %T";

/// Whether `NaiveDateTime::parse_from_str` reads `text` as a moment written
/// in the form `format`.
pub uninterp spec fn reads_as_moment(text: Seq<char>, format: Seq<char>) -> bool;

/// `NaiveDateTime::parse_from_str` reads `text` in the form `format`, or
/// fails where it does not fit. Whether it reads a moment depends on the two
/// texts alone. Nothing is claimed of the moment read.
#[verifier::external_body]
fn parse_moment(text: &str, format: &str) -> (moment: Option<NaiveDateTime>)
    ensures
        moment is Some <==> reads_as_moment(text@, format@),
{
    NaiveDateTime::parse_from_str(text, format).ok()
}

/// The number of whole seconds that have passed since `custom_epoch` by the
/// local clock, through `chrono::offset::Local::now`. It depends on the clock,
/// so nothing is claimed of it.
#[verifier::external_body]
pub fn custom_timestamp(custom_epoch: NaiveDateTime) -> (seconds: i64) {
    chrono::offset::Local::now().naive_local().signed_duration_since(custom_epoch).num_seconds()
}

/// What the broker is configured with.
#[derive(Debug)]
pub struct Config {
    ui_path: String,
    my_epoch: String,
    cleanup_interval: u64,
    max_age: i64,
    auth_db: String,
    secret_path: String,
}

/// What a configuration says.
pub struct ConfigView {
    pub ui_path: Seq<char>,
    pub my_epoch: Seq<char>,
    pub cleanup_interval: u64,
    pub max_age: i64,
    pub auth_db: Seq<char>,
    pub secret_path: Seq<char>,
}

impl View for Config {
    type V = ConfigView;

    closed spec fn view(&self) -> ConfigView {
        ConfigView {
            ui_path: self.ui_path@,
            my_epoch: self.my_epoch@,
            cleanup_interval: self.cleanup_interval,
            max_age: self.max_age,
            auth_db: self.auth_db@,
            secret_path: self.secret_path@,
        }
    }
}

impl Config {
    /// The configuration with the given values.
    pub fn new(
        ui_path: String,
        my_epoch: String,
        cleanup_interval: u64,
        max_age: i64,
        auth_db: String,
        secret_path: String,
    ) -> (config: Config)
        ensures
            config@ == (ConfigView {
                ui_path: ui_path@,
                my_epoch: my_epoch@,
                cleanup_interval,
                max_age,
                auth_db: auth_db@,
                secret_path: secret_path@,
            }),
    {
        Config { ui_path, my_epoch, cleanup_interval, max_age, auth_db, secret_path }
    }

    /// The moment from which issue times are counted, or `None` where the
    /// configured text is not a moment in the form of [`EPOCH_FORMAT`].
    pub fn get_epoch(&self) -> (epoch: Option<NaiveDateTime>)
        ensures
            epoch is Some <==> reads_as_moment(self@.my_epoch, EPOCH_FORMAT@),
    {
        parse_moment(self.my_epoch.as_str(), EPOCH_FORMAT)
    }

    /// The directory of the user interface's files.
    pub fn ui_path(&self) -> (path: &str)
        ensures
            path@ == self@.ui_path,
    {
        self.ui_path.as_str()
    }

    /// The seconds between two scheduled sweeps.
    pub fn cleanup_interval(&self) -> (seconds: u64)
        ensures
            seconds == self@.cleanup_interval,
    {
        self.cleanup_interval
    }

    /// The seconds that a token lives.
    pub fn max_age(&self) -> (seconds: i64)
        ensures
            seconds == self@.max_age,
    {
        self.max_age
    }

    /// The name of the token database.
    pub fn auth_db(&self) -> (name: &str)
        ensures
            name@ == self@.auth_db,
    {
        self.auth_db.as_str()
    }

    /// The file that the cleanup secret is written to.
    pub fn secret_path(&self) -> (path: &str)
        ensures
            path@ == self@.secret_path,
    {
        self.secret_path.as_str()
    }
}

} // verus!
