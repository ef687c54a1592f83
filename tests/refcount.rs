use kinect::refcount::{ref_steps, RefStep, WrapperOp};
use std::collections::HashMap;

/// A stand-in for the native layer's reference counts: handle to count.
/// A handle whose count reaches zero is freed and leaves the table.
struct Native {
    counts: HashMap<u32, u32>,
}

impl Native {
    fn create(&mut self, h: u32) {
        self.counts.insert(h, 1);
    }

    fn alive(&self, h: u32) -> bool {
        self.counts.contains_key(&h)
    }

    /// Runs the calls of one operation; `own` is the handle that the wrapper
    /// acted upon held, `source` the handle of the wrapper copied from.
    /// Panics if a call reaches a freed handle.
    fn run(&mut self, op: WrapperOp, own: Option<u32>, source: Option<u32>) {
        for step in ref_steps(op) {
            let h = match step {
                RefStep::ReferenceSource => source.unwrap(),
                RefStep::ReleaseOwn => own.unwrap(),
            };
            let c = self.counts.get_mut(&h).expect("call on a freed handle");
            match step {
                RefStep::ReferenceSource => *c += 1,
                RefStep::ReleaseOwn => {
                    *c -= 1;
                    if *c == 0 {
                        self.counts.remove(&h);
                    }
                }
            }
        }
    }
}

fn native() -> Native {
    Native { counts: HashMap::new() }
}

#[test]
fn steps_of_each_operation() {
    assert_eq!(ref_steps(WrapperOp::Duplicate), vec![RefStep::ReferenceSource]);
    assert_eq!(ref_steps(WrapperOp::Destroy), vec![RefStep::ReleaseOwn]);
    assert_eq!(
        ref_steps(WrapperOp::Assign),
        vec![RefStep::ReferenceSource, RefStep::ReleaseOwn]
    );
}

#[test]
fn duplicate_then_destroy_one_keeps_the_other_usable() {
    let mut n = native();
    n.create(7);
    n.run(WrapperOp::Duplicate, None, Some(7));
    assert_eq!(n.counts[&7], 2);
    n.run(WrapperOp::Destroy, Some(7), None);
    assert!(n.alive(7));
    assert_eq!(n.counts[&7], 1);
    n.run(WrapperOp::Destroy, Some(7), None);
    assert!(!n.alive(7));
}

#[test]
fn assigning_a_copy_of_the_same_handle_keeps_it_alive() {
    let mut n = native();
    n.create(3);
    n.run(WrapperOp::Assign, Some(3), Some(3));
    assert!(n.alive(3));
    assert_eq!(n.counts[&3], 1);
}

#[test]
fn assigning_moves_the_reference() {
    let mut n = native();
    n.create(1);
    n.create(2);
    n.run(WrapperOp::Assign, Some(1), Some(2));
    assert!(!n.alive(1));
    assert_eq!(n.counts[&2], 2);
}
