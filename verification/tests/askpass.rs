use dank_pinentry::askpass::{finish, request, Finish, Mode};
use dank_pinentry::backend::dms::Reply;

fn reply(kind: &str, pin: Option<&str>, outcome: Option<&str>) -> Reply {
    Reply {
        v: 1,
        kind: kind.to_string(),
        id: None,
        pin: pin.map(str::to_string),
        repeated: false,
        outcome: outcome.map(str::to_string),
        message: None,
    }
}

#[test]
fn mode_follows_ssh_askpass_prompt() {
    assert_eq!(Mode::from_env(None), Mode::Passphrase);
    assert_eq!(Mode::from_env(Some("")), Mode::Passphrase);
    assert_eq!(Mode::from_env(Some("confirm")), Mode::Confirm);
    assert_eq!(Mode::from_env(Some("none")), Mode::Notify);
    assert_eq!(Mode::request_kind(Mode::Confirm), "confirm");
    assert_eq!(Mode::request_kind(Mode::Notify), "message");
}

// ---- further cases ----

#[test]
fn passphrase_mode_asks_for_a_pin() {
    assert_eq!(Mode::request_kind(Mode::Passphrase), "getpin");
    assert_eq!(Mode::from_env(Some("CONFIRM")), Mode::Passphrase);
}

#[test]
fn only_a_passphrase_or_a_confirmation_succeeds() {
    assert_eq!(finish(Mode::Passphrase, &reply("pin", Some("pw"), None)), Finish::PrintPassphrase);
    assert_eq!(finish(Mode::Passphrase, &reply("pin", None, None)), Finish::MissingPassphrase);
    assert_eq!(finish(Mode::Passphrase, &reply("cancel", None, None)), Finish::Fail);
    assert_eq!(finish(Mode::Passphrase, &reply("error", None, None)), Finish::PluginError);
    assert_eq!(finish(Mode::Confirm, &reply("confirm", None, Some("confirmed"))), Finish::Succeed);
    assert_eq!(finish(Mode::Confirm, &reply("confirm", None, Some("declined"))), Finish::Fail);
    assert_eq!(finish(Mode::Confirm, &reply("pin", Some("x"), None)), Finish::Fail);
    assert_eq!(finish(Mode::Notify, &reply("cancel", None, None)), Finish::Succeed);
    assert_eq!(finish(Mode::Notify, &reply("error", None, None)), Finish::Succeed);
}

#[test]
fn the_request_carries_the_prompt_and_the_caller() {
    let r = request(Mode::Confirm, "id1".into(), "Allow?".into(), 77, 1000, Some("ssh host".into()), None);
    assert_eq!(r.kind, "confirm");
    assert_eq!(r.id, "id1");
    assert_eq!(r.description.as_deref(), Some("Allow?"));
    assert_eq!(r.timeout, 60);
    let owner = r.owner.unwrap();
    assert_eq!(owner.pid, Some(77));
    assert_eq!(owner.uid, Some(1000));
    assert_eq!(owner.host, None);
    assert_eq!(owner.command.as_deref(), Some("ssh host"));

    let r = request(Mode::Passphrase, "i".into(), String::new(), 1, 0, None, Some(5));
    assert_eq!(r.kind, "getpin");
    assert_eq!(r.description, None);
    assert_eq!(r.timeout, 5);
    assert_eq!(r.prompt, None);
}
