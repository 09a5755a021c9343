//! A verified engine for hooking a foreign object's virtual method table
//! (vtable) inside a live process.
//!
//! The engine locates the object either from a known interface pointer or by
//! scanning candidate modules at fixed byte offsets, redirects selected vtable
//! slots to interceptor entry points, forwards to the saved originals, and
//! notifies a small set of lifecycle callbacks (device created, pre/post
//! reset, per-frame present) at the proper points.  Foreign memory is modelled
//! as a map from addresses to machine words, so every decision the engine
//! makes — which slot to patch, which original to save, when a callback is
//! owed, what an uninstall must restore — is stated and proved here.  The
//! embedding host performs the raw reads and writes that the model prescribes.

pub mod engine_types;
pub mod hooks;
pub mod input;
pub mod locator;
pub mod offsets;
pub mod overlay;
pub mod patcher;
pub mod process;
pub mod scanner;
pub mod signatures;
pub mod survey;
