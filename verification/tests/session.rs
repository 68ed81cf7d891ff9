use doc_store::{PlatformAction, TSF};

#[test]
fn initialization_asks_for_the_platform_calls_in_order() {
    let mut tsf = TSF::new();
    let mut actions: Vec<PlatformAction> = Vec::new();
    while let Some(action) = tsf.next_action() {
        actions.push(action);
        let value: u32 = match action {
            PlatformAction::Activate => 11,
            PlatformAction::CreateContext { .. } => 77,
            _ => 0,
        };
        tsf.step_succeeded(value);
    }
    assert_eq!(
        actions,
        vec![
            PlatformAction::CreateThreadManager,
            PlatformAction::CreateDocumentManager,
            PlatformAction::Activate,
            PlatformAction::CreateTextStore,
            PlatformAction::CreateContext { client_id: 11 },
            PlatformAction::PushContext,
            PlatformAction::GetFunctionProvider,
            PlatformAction::GetReconversion,
            PlatformAction::SetFocus,
        ]
    );
    assert!(tsf.is_initialized());
    assert_eq!(tsf.client_id, 11);
    assert_eq!(tsf.edit_cookie, 77);
}

#[test]
fn a_failed_step_leaves_exactly_the_earlier_handles() {
    let mut tsf = TSF::new();
    // the first three platform calls succeed, the fourth fails: the
    // driver stops recording and tears down
    let mut step: u32 = 0;
    while step < 3 {
        assert!(tsf.next_action().is_some());
        tsf.step_succeeded(5);
        step += 1;
    }
    assert!(tsf.thread_mgr);
    assert!(tsf.doc_mgr);
    assert!(tsf.activated);
    assert_eq!(tsf.client_id, 5);
    assert!(!tsf.text_store);
    assert!(!tsf.context);
    assert!(!tsf.is_initialized());

    let deactivate = tsf.uninitialize();
    assert!(deactivate);
    assert!(!tsf.thread_mgr);
    assert!(!tsf.doc_mgr);
    assert!(!tsf.activated);
    assert_eq!(tsf.edit_cookie, 0);
    assert_eq!(tsf.client_id, 5);
}

#[test]
fn uninitialize_before_anything_needs_no_deactivation() {
    let mut tsf = TSF::new();
    assert!(!tsf.uninitialize());
    assert!(!tsf.is_initialized());
}
