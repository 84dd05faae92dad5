use vstd::prelude::*;
use crate::networks::WifiSnapshot;

verus! {

/// What the application is asked to do.
#[derive(Debug, Clone, PartialEq)]
pub enum Action {
    Tick,
    Render,
    Resize(u16, u16),
    Suspend,
    Resume,
    Quit,
    ClearScreen,
    Error(String),
    Help,
    BackToMenu,
    ScanComplete,
    UpdateWifiState(WifiSnapshot),
}

} // verus!
