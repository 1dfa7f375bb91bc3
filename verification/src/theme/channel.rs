//! A tiny non-blocking channel on `std::sync::mpsc`: the custom-CSS
//! watcher thread sends, the UI loop polls with `try_recv`.
use vstd::prelude::*;

verus! {

#[verifier::external_type_specification]
#[verifier::external_body]
#[verifier::reject_recursive_types(T)]
pub struct ExMpscSender<T>(std::sync::mpsc::Sender<T>);

#[verifier::external_type_specification]
#[verifier::external_body]
#[verifier::reject_recursive_types(T)]
pub struct ExMpscReceiver<T>(std::sync::mpsc::Receiver<T>);

/// `std::sync::mpsc::channel`: a fresh unbounded channel. Nothing is
/// stated of the pair beyond its types.
#[verifier::external_body]
fn mpsc_channel<T>() -> (r: (std::sync::mpsc::Sender<T>, std::sync::mpsc::Receiver<T>)) {
    std::sync::mpsc::channel()
}

/// `std::sync::mpsc::Sender::send`: `Err` exactly when the receiving
/// half is gone, which depends on the other thread, so nothing is stated
/// of the outcome.
#[verifier::external_body]
fn mpsc_send<T>(tx: &std::sync::mpsc::Sender<T>, v: T) -> (r: Result<(), ()>) {
    match tx.send(v) {
        Ok(()) => Ok(()),
        Err(_) => Err(()),
    }
}

/// `std::sync::mpsc::Receiver::try_recv`: the next queued value, if any;
/// what is queued depends on the sending thread, so nothing is stated of
/// the outcome.
#[verifier::external_body]
fn mpsc_try_recv<T>(rx: &std::sync::mpsc::Receiver<T>) -> (r: Result<T, ()>) {
    match rx.try_recv() {
        Ok(v) => Ok(v),
        Err(_) => Err(()),
    }
}

/// Sending half.
#[verifier::reject_recursive_types(T)]
pub struct Sender<T>(std::sync::mpsc::Sender<T>);

/// Receiving half.
#[verifier::reject_recursive_types(T)]
pub struct Receiver<T>(std::sync::mpsc::Receiver<T>);

impl<T> Sender<T> {
    /// Queue a value; `Err(())` once the receiver is gone.
    pub fn send(&self, v: T) -> Result<(), ()> {
        mpsc_send(&self.0, v)
    }
}

impl<T> Receiver<T> {
    /// Take the next queued value without blocking; `Err(())` when
    /// nothing is queued or the sender is gone.
    pub fn try_recv(&self) -> Result<T, ()> {
        mpsc_try_recv(&self.0)
    }
}

/// A fresh unbounded channel.
pub fn unbounded<T>() -> (Sender<T>, Receiver<T>) {
    let (tx, rx) = mpsc_channel();
    (Sender(tx), Receiver(rx))
}

} // verus!
