//! The system frameworks that the emulator provides to apps: the state and
//! decisions behind them that do not need the Objective-C runtime.
pub mod ad_support;
pub mod core_animation;
pub mod core_foundation;
pub mod core_graphics;
pub mod foundation;
pub mod media_player;
pub mod mobile_core_services;
pub mod system_configuration;
pub mod uikit;
