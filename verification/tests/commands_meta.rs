use bouncer::commands::{command_for_name, registered_command_names, CommandKind};
use bouncer::commands::{dob, interview, meow, ping};
use bouncer::eligibility::{Eligibility, IneligibilityReason};

#[test]
fn the_registry_resolves_each_registered_name() {
    assert_eq!(command_for_name("meow"), Some(CommandKind::Meow));
    assert_eq!(command_for_name("dob"), Some(CommandKind::Dob));
    assert_eq!(command_for_name("interview"), Some(CommandKind::Interview));
}

#[test]
fn unregistered_names_resolve_to_nothing() {
    assert_eq!(command_for_name("ping"), None);
    assert_eq!(command_for_name(""), None);
    assert_eq!(command_for_name("meowing"), None);
}

#[test]
fn the_registration_list_matches_the_registry() {
    let names = registered_command_names();
    assert_eq!(names, vec!["meow", "dob", "interview"]);
    for name in names {
        assert!(command_for_name(name).is_some());
    }
}

#[test]
fn command_names_and_descriptions_are_stable() {
    assert_eq!(meow::Command::name(), "meow");
    assert_eq!(meow::Command::description(), "Meow.");
    assert_eq!(meow::Command::reply(), "meow :3");
    assert_eq!(ping::Command::name(), "ping");
    assert_eq!(ping::Command::reply(), "Pong!");
    assert_eq!(dob::Command::name(), "dob");
    assert_eq!(dob::Command::description(), "Calculate the age from given date of birth time.");
    assert_eq!(dob::Command::option_name(), "date");
    assert_eq!(dob::Command::option_description(), "Date in `YYYY-MM-DD` format.");
    assert_eq!(interview::Command::name(), "interview");
    assert_eq!(interview::Command::description(), "Interview a user.");
    assert_eq!(interview::Command::user_option_name(), "user");
    assert_eq!(interview::Command::type_option_name(), "type");
}

#[test]
fn each_refusal_reason_has_its_reply() {
    assert_eq!(interview::refusal_reply(Eligibility::Eligible), None);
    assert_eq!(
        interview::refusal_reply(Eligibility::Ineligible(IneligibilityReason::TargetBot)),
        Some("You cannot interview a bot.")
    );
    assert_eq!(
        interview::refusal_reply(Eligibility::Ineligible(IneligibilityReason::TargetSelf)),
        Some("You cannot interview yourself.")
    );
    assert_eq!(
        interview::refusal_reply(Eligibility::Ineligible(IneligibilityReason::TargetInterviewer)),
        Some("You cannot interview an interviewer.")
    );
    assert_eq!(
        interview::Command::not_a_member_reply(),
        "This user does not seem to be a member of the server."
    );
}
