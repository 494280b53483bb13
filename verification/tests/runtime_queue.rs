use desktop_runtime::model::{AppId, OpenWindowRequest, WindowId};
use desktop_runtime::reducer::{DesktopAction, ReducerError, RuntimeEffect};
use desktop_runtime::runtime::DesktopRuntime;

#[test]
fn dispatched_effects_queue_in_order_until_taken() {
    let mut runtime = DesktopRuntime::new();
    assert!(runtime.effects.is_empty());
    runtime.dispatch(DesktopAction::OpenWindow(OpenWindowRequest::new(AppId::Explorer))).expect("open");
    let first = runtime.state.windows[0].id;
    let after_first = runtime.effects.clone();
    assert!(after_first.contains(&RuntimeEffect::FocusWindowInput(first)));
    runtime.dispatch(DesktopAction::OpenWindow(OpenWindowRequest::new(AppId::Notepad))).expect("open");
    let second = runtime.state.windows[1].id;
    let taken = runtime.take_effects();
    assert_eq!(&taken[..after_first.len()], &after_first[..]);
    assert!(taken[after_first.len()..].contains(&RuntimeEffect::FocusWindowInput(second)));
    assert!(runtime.effects.is_empty());
    assert_eq!(runtime.state.windows.len(), 2);
}

#[test]
fn refused_actions_leave_the_queue_alone() {
    let mut runtime = DesktopRuntime::new();
    runtime.dispatch(DesktopAction::OpenWindow(OpenWindowRequest::new(AppId::Terminal))).expect("open");
    let queued = runtime.effects.clone();
    let err = runtime.dispatch(DesktopAction::CloseWindow { window_id: WindowId(999) }).unwrap_err();
    assert_eq!(err, ReducerError::WindowNotFound);
    assert_eq!(runtime.effects, queued);
    assert_eq!(runtime.state.windows.len(), 1);
}
