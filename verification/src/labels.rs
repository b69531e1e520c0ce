//! Generates human-readable labels from raw data

use vstd::prelude::*;

use crate::ctrl::Effect;
use crate::decimal::{decimal_string, spec_decimal};
use crate::ordering::ProcessOrdering;
use crate::process::{ProcessMetadata, Status};
use crate::time::{spec_elapsed, Timestamp};

verus! {

/// The label of an event that happened `delta` seconds ago: "now" under one second, then at
/// most two components among hours, minutes and seconds, and only the hours from 100 hours on
pub open spec fn spec_relative_label(delta: nat) -> Seq<char> {
    let hours = delta / 3600;
    let minutes = (delta / 60) % 60;
    let seconds = delta % 60;
    if delta == 0 {
        "now"@
    } else if hours > 99 {
        spec_decimal(hours) + "h ago"@
    } else if hours > 0 {
        spec_decimal(hours) + "h "@ + spec_decimal(minutes) + "m ago"@
    } else if minutes > 0 {
        spec_decimal(minutes) + "m "@ + spec_decimal(seconds) + "s ago"@
    } else {
        spec_decimal(seconds) + "s ago"@
    }
}

/// Generates a label describing the time elapsed between `timestamp` and `now`, in whole
/// seconds
///
/// # Arguments
/// * `now`: The current time
/// * `timestamp`: The timestamp for which to generate a label, which must not be later than
///   `now`
pub fn relative_timestamp_label(now: Timestamp, timestamp: Timestamp) -> (label: String)
    requires
        timestamp.spec_millis() <= now.spec_millis(),
    ensures
        label@ == spec_relative_label(spec_elapsed(timestamp, now) / 1000),
{
    let delta_in_sec = now.duration_since(&timestamp) / 1000;

    let hours_component = delta_in_sec / 3600;
    let minutes_component = (delta_in_sec / 60) % 60;
    let seconds_component = delta_in_sec % 60;

    if delta_in_sec == 0 {
        String::from_str("now")
    } else if hours_component > 99 {
        let mut s = decimal_string(hours_component);
        s.append("h ago");
        s
    } else if hours_component > 0 {
        let mut s = decimal_string(hours_component);
        s.append("h ");
        s.append(decimal_string(minutes_component).as_str());
        s.append("m ago");
        s
    } else if minutes_component > 0 {
        let mut s = decimal_string(minutes_component);
        s.append("m ");
        s.append(decimal_string(seconds_component).as_str());
        s.append("s ago");
        s
    } else {
        let mut s = decimal_string(seconds_component);
        s.append("s ago");
        s
    }
}

/// The name under which a sorting criterion is offered to the user
pub open spec fn spec_criteria_label(criteria: ProcessOrdering) -> Seq<char> {
    match criteria {
        ProcessOrdering::CurrentMetric => "Current metric"@,
        ProcessOrdering::Pid => "Process ID"@,
        ProcessOrdering::Command => "Command"@,
    }
}

/// The name under which a sorting criterion is offered to the user
pub fn process_criteria_label(criteria: ProcessOrdering) -> (s: &'static str)
    ensures
        s@ == spec_criteria_label(criteria),
{
    match criteria {
        ProcessOrdering::CurrentMetric => "Current metric",
        ProcessOrdering::Pid => "Process ID",
        ProcessOrdering::Command => "Command",
    }
}

/// What sorting the processes by a criterion does, as explained to the user
pub open spec fn spec_criteria_description(criteria: ProcessOrdering) -> Seq<char> {
    match criteria {
        ProcessOrdering::CurrentMetric => "Order processes by their last collected metric, in a descending order"@,
        ProcessOrdering::Pid => "Order processes by their pid, in an ascending order"@,
        ProcessOrdering::Command => "Order processes by their command, in an alphabetically ascending order"@,
    }
}

/// What sorting the processes by a criterion does, as explained to the user
pub fn process_criteria_description(criteria: ProcessOrdering) -> (s: &'static str)
    ensures
        s@ == spec_criteria_description(criteria),
{
    match criteria {
        ProcessOrdering::CurrentMetric => "Order processes by their last collected metric, in a descending order",
        ProcessOrdering::Pid => "Order processes by their pid, in an ascending order",
        ProcessOrdering::Command => "Order processes by their command, in an alphabetically ascending order",
    }
}

/// The text of the metadata bar: the effect of the last input while it is shown, else a
/// summary of the selected process (its command, its pid and its status)
pub open spec fn spec_metadata_text(status: Effect, selected: Option<ProcessMetadata>) -> Seq<char> {
    match status {
        Effect::ProcessesSorted(criteria) => "Processes sorted by "@ + spec_criteria_label(criteria),
        Effect::NoEffect => match selected {
            None => "No process is currently selected"@,
            Some(pm) => pm.spec_command() + " - PID: "@ + spec_decimal(pm.spec_pid() as nat) + " - Status: "@
                + match pm.spec_status() {
                Status::RUNNING => "running"@,
                Status::DEAD => "dead"@,
            },
        },
    }
}

/// Generates the text of the metadata bar
pub fn metadata_text(status: Effect, selected: Option<&ProcessMetadata>) -> (text: String)
    ensures
        text@ == spec_metadata_text(
            status,
            match selected {
                Some(pm) => Some(*pm),
                None => None,
            },
        ),
{
    match status {
        Effect::ProcessesSorted(criteria) => {
            let mut text = String::from_str("Processes sorted by ");
            text.append(process_criteria_label(criteria));
            text
        },
        Effect::NoEffect => match selected {
            None => String::from_str("No process is currently selected"),
            Some(pm) => {
                let mut text = String::from_str(pm.command());
                text.append(" - PID: ");
                text.append(decimal_string(pm.pid() as u64).as_str());
                text.append(" - Status: ");
                text.append(pm.status().label());
                text
            },
        },
    }
}

/// The label of a timestamp counts the whole hours, minutes and seconds elapsed until `now`:
/// when between `((hours * 60 + minutes) * 60 + seconds) * 1000` and one second more
/// milliseconds elapsed, with fewer than 60 minutes and 60 seconds, the label is "now" for no
/// whole second, then counts the seconds alone, the minutes and seconds under an hour, the hours
/// and minutes up to 99 hours, and the hours alone from 100 hours on. For instance 90 minutes
/// give "1h 30m ago" and 45 minutes give "45m 0s ago": a part of an hour is never counted as an
/// hour.
pub proof fn law_label_counts_whole_units(now: Timestamp, timestamp: Timestamp, hours: nat, minutes: nat, seconds: nat)
    requires
        timestamp.spec_millis() <= now.spec_millis(),
        minutes < 60,
        seconds < 60,
        ((hours * 60 + minutes) * 60 + seconds) * 1000 <= now.spec_millis() - timestamp.spec_millis(),
        now.spec_millis() - timestamp.spec_millis() < ((hours * 60 + minutes) * 60 + seconds + 1) * 1000,
    ensures
        ({
            let label = spec_relative_label(spec_elapsed(timestamp, now) / 1000);
            &&& hours == 0 && minutes == 0 && seconds == 0 ==> label == "now"@
            &&& hours == 0 && minutes == 0 && seconds > 0 ==> label == spec_decimal(seconds) + "s ago"@
            &&& hours == 0 && minutes > 0 ==> label == spec_decimal(minutes) + "m "@ + spec_decimal(seconds)
                + "s ago"@
            &&& 1 <= hours <= 99 ==> label == spec_decimal(hours) + "h "@ + spec_decimal(minutes) + "m ago"@
            &&& hours >= 100 ==> label == spec_decimal(hours) + "h ago"@
        }),
{
    let elapsed = now.spec_millis() - timestamp.spec_millis();
    let total = (hours * 60 + minutes) * 60 + seconds;
    assert(spec_elapsed(timestamp, now) == elapsed);
    vstd::arithmetic::div_mod::lemma_fundamental_div_mod_converse(
        elapsed as int,
        1000,
        total as int,
        elapsed - total * 1000,
    );
    assert(total == (hours * 60 + minutes) * 60 + seconds);
    vstd::arithmetic::div_mod::lemma_fundamental_div_mod_converse(
        total as int,
        3600,
        hours as int,
        (minutes * 60 + seconds) as int,
    );
    vstd::arithmetic::div_mod::lemma_fundamental_div_mod_converse(
        total as int,
        60,
        (hours * 60 + minutes) as int,
        seconds as int,
    );
    vstd::arithmetic::div_mod::lemma_fundamental_div_mod_converse(
        (hours * 60 + minutes) as int,
        60,
        hours as int,
        minutes as int,
    );
    assert(total / 3600 == hours);
    assert((total / 60) % 60 == minutes);
    assert(total % 60 == seconds);
    assert(total == 0 <==> hours == 0 && minutes == 0 && seconds == 0);
}

/// While no effect is shown, the metadata bar describes the selected process by its command, its
/// pid and the label of its status: a process that died is reported as "dead", one that runs as
/// "running"; without a selected process it says so. While the effect of a sort is shown, it
/// names the criterion, whatever process is selected.
pub proof fn law_metadata_reports_the_status_of_the_selected_process(
    pm: ProcessMetadata,
    selected: Option<ProcessMetadata>,
)
    ensures
        ({
            let prefix = pm.spec_command() + " - PID: "@ + spec_decimal(pm.spec_pid() as nat) + " - Status: "@;
            let text = spec_metadata_text(Effect::NoEffect, Some(pm));
            &&& pm.spec_status() == Status::DEAD ==> text == prefix + "dead"@
            &&& pm.spec_status() == Status::RUNNING ==> text == prefix + "running"@
        }),
        spec_metadata_text(Effect::NoEffect, None) == "No process is currently selected"@,
        spec_metadata_text(Effect::ProcessesSorted(ProcessOrdering::CurrentMetric), selected)
            == "Processes sorted by Current metric"@,
        spec_metadata_text(Effect::ProcessesSorted(ProcessOrdering::Pid), selected)
            == "Processes sorted by Process ID"@,
        spec_metadata_text(Effect::ProcessesSorted(ProcessOrdering::Command), selected)
            == "Processes sorted by Command"@,
{
    reveal_strlit("Processes sorted by ");
    reveal_strlit("Current metric");
    reveal_strlit("Process ID");
    reveal_strlit("Command");
    reveal_strlit("Processes sorted by Current metric");
    reveal_strlit("Processes sorted by Process ID");
    reveal_strlit("Processes sorted by Command");
    assert("Processes sorted by "@ + "Current metric"@ =~= "Processes sorted by Current metric"@);
    assert("Processes sorted by "@ + "Process ID"@ =~= "Processes sorted by Process ID"@);
    assert("Processes sorted by "@ + "Command"@ =~= "Processes sorted by Command"@);
}

} // verus!
