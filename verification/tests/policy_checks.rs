//! The constant authorization policy.

use cloud_client::policy::{
    ConstantPolicy, Decision, Permission, Recipient, ResourceIdent, ResourceName,
};

fn assert_send_sync_bound<T: Send + Sync>() {}

fn share_named(name: &str) -> ResourceIdent {
    ResourceIdent::share(ResourceName::new(vec![name.to_string()]))
}

#[test]
fn assert_send_sync() {
    assert_send_sync_bound::<ConstantPolicy>();
}

#[test]
fn allow_by_default() {
    let policy = ConstantPolicy::default();

    let resource = share_named("test_share");
    let permission = Permission::Read;
    let recipient = &Recipient::anonymous();

    let decision = policy.authorize(&resource, &permission, recipient).unwrap();
    assert_eq!(decision, Decision::Allow);
}

#[test]
fn allow() {
    let policy = ConstantPolicy::new(Decision::Allow);

    let resource = share_named("test_share");
    let permission = Permission::Read;
    let recipient = &Recipient::anonymous();

    let decision = policy.authorize(&resource, &permission, recipient).unwrap();
    assert_eq!(decision, Decision::Allow);
}

#[test]
fn deny() {
    let policy = ConstantPolicy::new(Decision::Deny);

    let resource = share_named("test_share");
    let permission = Permission::Read;
    let recipient = &Recipient::anonymous();

    let decision = policy.authorize(&resource, &permission, recipient).unwrap();
    assert_eq!(decision, Decision::Deny);
}
