use vstd::prelude::*;

verus! {

/// A capsule that samples a humidity sensor on an alarm.
///
/// It borrows both capabilities from the board for as long as it lives and
/// holds nothing else, so the two borrowed capabilities are its whole model.
/// The humidity driver may be unsized, so that a board can hand over a trait
/// object.
pub struct Tutorial<'a, A: 'a, H: ?Sized + 'a> {
    alarm: &'a A,
    humidity: &'a H,
}

impl<'a, A, H: ?Sized> Tutorial<'a, A, H> {
    /// The alarm that the capsule was built with.
    pub closed spec fn alarm_spec(&self) -> &'a A {
        self.alarm
    }

    /// The humidity driver that the capsule was built with.
    pub closed spec fn humidity_spec(&self) -> &'a H {
        self.humidity
    }

    /// Builds the capsule over an alarm and a humidity driver. It cannot fail.
    pub fn new(alarm: &'a A, humidity: &'a H) -> (r: Tutorial<'a, A, H>)
        ensures
            r.alarm_spec() == alarm,
            r.humidity_spec() == humidity,
    {
        Tutorial { alarm: alarm, humidity: humidity }
    }

    /// The alarm that the capsule samples on.
    pub fn alarm(&self) -> (r: &'a A)
        ensures
            r == self.alarm_spec(),
    {
        self.alarm
    }

    /// The humidity driver that the capsule reads from.
    pub fn humidity(&self) -> (r: &'a H)
        ensures
            r == self.humidity_spec(),
    {
        self.humidity
    }

    /// Starts the capsule. It sets no alarm and requests no reading yet, and
    /// since it takes the capsule by shared reference it changes nothing.
    pub fn start(&self) {
    }

    /// Entry point for the kernel when the alarm fires. It does nothing.
    pub fn fired(&self) {
    }

    /// Entry point for the kernel when a humidity reading is ready. The
    /// reading is ignored.
    #[allow(unused_variables)]
    pub fn callback(&self, humidity: usize) {
    }
}

} // verus!
