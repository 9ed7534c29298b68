//! The lock orchestrator: the state machine that ties together the
//! multi-output surface lifecycle, rendering dispatch, keystroke
//! accumulation and the authentication gate. The display stays locked until
//! authentication explicitly succeeds; the `exit` flag is set exactly once,
//! on the transition to the final phase.
//!
//! The compositor protocol transport itself stays outside: callers deliver
//! its events (lock granted, configure, key, finished) and perform the
//! actions the orchestrator decides on.

use vstd::prelude::*;
use crate::config::str_eq;
use crate::input::{on_key, string_clear, Key, KeyAction};
use crate::media::{spec_painted, Media};
use crate::output::OutputInfo;
use crate::render::Frame;

verus! {

/// The phases of one lock session.
#[derive(Clone, Copy, Debug, PartialEq, Eq, Structural)]
pub enum Phase {
    Idle,
    Locking,
    Locked,
    Unlocking,
    Finished,
}

/// The per-output render target: the negotiated pixel size of one lock
/// surface. The compositor-side handles live with the caller, in an arena
/// keyed by the same output identity.
#[derive(Clone, Copy, Debug, PartialEq, Eq, Structural)]
pub struct LockSurfaceWrapper {
    /// Identity of the output this surface covers.
    pub output_id: u32,
    /// Negotiated width; zero until the first configure event.
    pub width: u32,
    /// Negotiated height; zero until the first configure event.
    pub height: u32,
    /// Whether a non-zero size has been negotiated, so painting may start.
    pub configured: bool,
}

/// The surfaces created for a set of outputs at lock time: one unconfigured
/// surface per output, in the same order.
pub open spec fn spec_surfaces_for(outputs: Seq<OutputInfo>) -> Seq<LockSurfaceWrapper> {
    Seq::new(
        outputs.len(),
        |i: int| LockSurfaceWrapper { output_id: outputs[i].id, width: 0, height: 0, configured: false },
    )
}

/// The lock orchestrator's state: the session phase, one surface per known
/// output, the shared media descriptor, the secret buffer, the count of
/// failed attempts and the exit flag.
pub struct LockState {
    pub phase: Phase,
    pub session_lock_surfaces: Vec<LockSurfaceWrapper>,
    pub media: Media,
    pub password_buffer: String,
    pub retries: usize,
    pub exit: bool,
}

impl LockState {
    /// Exactly one surface per output: no two surfaces share an identity.
    pub open spec fn wf_surfaces(&self) -> bool {
        forall|i: int, j: int|
            0 <= i < j < self.session_lock_surfaces@.len()
                ==> self.session_lock_surfaces@[i].output_id
                != self.session_lock_surfaces@[j].output_id
    }

    /// The orchestrator's invariant: unique surfaces and a well-formed media.
    pub open spec fn inv(&self) -> bool {
        self.wf_surfaces() && self.media.wf()
    }

    /// Whether a surface for this output exists.
    pub open spec fn spec_has_surface(&self, output_id: u32) -> bool {
        exists|i: int|
            0 <= i < self.session_lock_surfaces@.len()
                && self.session_lock_surfaces@[i].output_id == output_id
    }

    /// Keeps exactly the surfaces of other outputs.
    pub open spec fn surface_keeps(output_id: u32) -> spec_fn(LockSurfaceWrapper) -> bool {
        |s: LockSurfaceWrapper| s.output_id != output_id
    }

    /// A fresh orchestrator before anything was asked of the compositor.
    pub fn from_state(media: Media) -> (s: LockState)
        requires
            media.wf(),
        ensures
            s.inv(),
            s.phase == Phase::Idle,
            s.session_lock_surfaces@ == Seq::<LockSurfaceWrapper>::empty(),
            s.media == media,
            s.password_buffer@ == Seq::<char>::empty(),
            s.retries == 0,
            s.exit == false,
    {
        LockState {
            phase: Phase::Idle,
            session_lock_surfaces: Vec::new(),
            media,
            password_buffer: String::new(),
            retries: 0,
            exit: false,
        }
    }

    /// The session lock was requested from the compositor: the session now
    /// waits for the grant.
    pub fn lock(&mut self)
        requires
            old(self).inv(),
            old(self).phase == Phase::Idle,
        ensures
            final(self).inv(),
            final(self).phase == Phase::Locking,
            final(self).session_lock_surfaces@ == old(self).session_lock_surfaces@,
            final(self).media == old(self).media,
            final(self).password_buffer@ == old(self).password_buffer@,
            final(self).retries == old(self).retries,
            final(self).exit == old(self).exit,
    {
        self.phase = Phase::Locking;
    }

    /// A fresh orchestrator around a newly requested compositor lock: the
    /// request is out, nothing is confirmed yet, no attempt has failed, and
    /// the secret buffer is empty.
    pub fn from_lock(media: Media) -> (s: LockState)
        requires
            media.wf(),
        ensures
            s.inv(),
            s.phase == Phase::Locking,
            s.session_lock_surfaces@ == Seq::<LockSurfaceWrapper>::empty(),
            s.media == media,
            s.password_buffer@ == Seq::<char>::empty(),
            s.retries == 0,
            s.exit == false,
    {
        LockState {
            phase: Phase::Locking,
            session_lock_surfaces: Vec::new(),
            media,
            password_buffer: String::new(),
            retries: 0,
            exit: false,
        }
    }

    /// Record one more lock surface; its output must not have one yet.
    pub fn add_surface(&mut self, surface: LockSurfaceWrapper)
        requires
            old(self).inv(),
            !old(self).spec_has_surface(surface.output_id),
        ensures
            final(self).inv(),
            final(self).session_lock_surfaces@ == old(self).session_lock_surfaces@.push(surface),
            final(self).phase == old(self).phase,
            final(self).media == old(self).media,
            final(self).password_buffer@ == old(self).password_buffer@,
            final(self).retries == old(self).retries,
            final(self).exit == old(self).exit,
    {
        self.session_lock_surfaces.push(surface);
    }

    /// The compositor granted the lock: one surface per known output is
    /// created, each deferring its paint until a configure event brings a
    /// non-zero size. A lock with zero outputs is legal and renders nothing.
    pub fn locked(&mut self, outputs: &Vec<OutputInfo>)
        requires
            old(self).inv(),
            old(self).phase == Phase::Locking,
            old(self).session_lock_surfaces@.len() == 0,
            forall|i: int, j: int|
                0 <= i < j < outputs@.len() ==> outputs@[i].id != outputs@[j].id,
        ensures
            final(self).inv(),
            final(self).phase == Phase::Locked,
            final(self).session_lock_surfaces@ == spec_surfaces_for(outputs@),
            final(self).media == old(self).media,
            final(self).password_buffer@ == old(self).password_buffer@,
            final(self).retries == old(self).retries,
            final(self).exit == old(self).exit,
    {
        let n: usize = outputs.len();
        let mut i: usize = 0;
        while i < n
            invariant
                i <= n,
                n == outputs@.len(),
                forall|a: int, b: int|
                    0 <= a < b < outputs@.len() ==> outputs@[a].id != outputs@[b].id,
                self.session_lock_surfaces@ =~= spec_surfaces_for(outputs@).take(i as int),
                self.media == old(self).media,
                self.media.wf(),
                self.password_buffer@ == old(self).password_buffer@,
                self.retries == old(self).retries,
                self.exit == old(self).exit,
                self.phase == old(self).phase,
            decreases n - i,
        {
            let info = outputs[i];
            self.session_lock_surfaces.push(
                LockSurfaceWrapper { output_id: info.id, width: 0, height: 0, configured: false },
            );
            i = i + 1;
        }
        self.phase = Phase::Locked;
        proof {
            assert(self.session_lock_surfaces@ =~= spec_surfaces_for(outputs@));
        }
    }

    /// A configure event: the compositor negotiated a pixel size for one
    /// output's surface. The surface records the size and the frame to
    /// commit is produced from the shared media; a zero size defers painting
    /// and an unknown output is ignored.
    pub fn configure(&mut self, output_id: u32, width: u32, height: u32) -> (f: Frame)
        requires
            old(self).inv(),
            4 * (width as int) * (height as int) <= usize::MAX as int,
        ensures
            final(self).inv(),
            final(self).phase == old(self).phase,
            final(self).password_buffer@ == old(self).password_buffer@,
            final(self).retries == old(self).retries,
            final(self).exit == old(self).exit,
            final(self).session_lock_surfaces@.len() == old(self).session_lock_surfaces@.len(),
            !old(self).spec_has_surface(output_id) ==> f == Frame::Skip && final(self).media
                == old(self).media && final(self).session_lock_surfaces@ == old(
            self).session_lock_surfaces@,
            old(self).spec_has_surface(output_id) ==> spec_painted(
                old(self).media,
                final(self).media,
                width,
                height,
                f,
            ),
            forall|i: int|
                0 <= i < old(self).session_lock_surfaces@.len() ==> final(
                self).session_lock_surfaces@[i] == (if old(
                self).session_lock_surfaces@[i].output_id == output_id && old(
                self).spec_has_surface(output_id) {
                    (LockSurfaceWrapper {
                        output_id,
                        width,
                        height,
                        configured: width > 0 && height > 0,
                    })
                } else {
                    old(self).session_lock_surfaces@[i]
                }),
    {
        let position = self.find_surface(output_id);
        match position {
            Some(i) => {
                self.session_lock_surfaces.set(
                    i,
                    LockSurfaceWrapper {
                        output_id,
                        width,
                        height,
                        configured: width > 0 && height > 0,
                    },
                );
                proof {
                    assert forall|a: int, b: int|
                        0 <= a < b < self.session_lock_surfaces@.len() implies self
                        .session_lock_surfaces@[a].output_id
                        != self.session_lock_surfaces@[b].output_id by {
                        assert(old(self).session_lock_surfaces@[a].output_id != old(
                        self).session_lock_surfaces@[b].output_id);
                    }
                }
                self.media.paint(width, height)
            },
            None => Frame::Skip,
        }
    }

    /// The position of the surface covering this output, if one exists.
    fn find_surface(&self, output_id: u32) -> (r: Option<usize>)
        ensures
            r matches Some(i) ==> i < self.session_lock_surfaces@.len()
                && self.session_lock_surfaces@[i as int].output_id == output_id,
            r is None ==> !self.spec_has_surface(output_id),
    {
        let mut i: usize = 0;
        let n: usize = self.session_lock_surfaces.len();
        while i < n
            invariant
                i <= n,
                n == self.session_lock_surfaces@.len(),
                forall|j: int|
                    0 <= j < i ==> self.session_lock_surfaces@[j].output_id != output_id,
            decreases n - i,
        {
            if self.session_lock_surfaces[i].output_id == output_id {
                return Some(i);
            }
            i = i + 1;
        }
        None
    }

    /// Keyboard input while locked: the accumulator applies the edit and
    /// says whether the buffer should now go to the authentication step.
    pub fn press_key(&mut self, key: Key) -> (action: KeyAction)
        requires
            old(self).inv(),
            old(self).phase == Phase::Locked,
        ensures
            final(self).inv(),
            final(self).phase == old(self).phase,
            final(self).media == old(self).media,
            final(self).session_lock_surfaces@ == old(self).session_lock_surfaces@,
            final(self).retries == old(self).retries,
            final(self).exit == old(self).exit,
            key == Key::Return ==> action == KeyAction::Submit && final(self).password_buffer@
                == old(self).password_buffer@,
            key == Key::Backspace ==> action == KeyAction::Continue && (old(
            self).password_buffer@.len() == 0 ==> final(self).password_buffer@ == old(
            self).password_buffer@) && (old(self).password_buffer@.len() > 0 ==> final(
            self).password_buffer@ == old(self).password_buffer@.drop_last()),
            key matches Key::Char(c) ==> action == KeyAction::Continue && final(
            self).password_buffer@ == old(self).password_buffer@.push(c),
            key == Key::Other ==> action == KeyAction::Continue && final(self).password_buffer@
                == old(self).password_buffer@,
    {
        on_key(&mut self.password_buffer, key)
    }

    /// The parameters of the backend call: the fixed service identity, the
    /// invoking user, and the submitted secret.
    pub fn auth_request(&self) -> (r: (String, String, String))
        ensures
            r.0@ == "system-auth"@,
            r.2@ == self.password_buffer@,
    {
        ("system-auth".to_owned(), current_username(), self.password_buffer.clone())
    }

    /// Apply the authentication backend's verdict. Whatever came back, the
    /// secret buffer is cleared: a secret never survives an attempt. Success
    /// moves the session to the unlocking phase with the retry count kept;
    /// failure keeps the display locked and grows the retry count by exactly
    /// one.
    pub fn unlock_with_auth(&mut self, authenticated: bool) -> (r: Result<(), &'static str>)
        requires
            old(self).inv(),
            old(self).phase == Phase::Locked,
            old(self).retries < usize::MAX,
        ensures
            final(self).inv(),
            final(self).password_buffer@ == Seq::<char>::empty(),
            final(self).media == old(self).media,
            final(self).session_lock_surfaces@ == old(self).session_lock_surfaces@,
            final(self).exit == old(self).exit,
            authenticated ==> r is Ok && final(self).phase == Phase::Unlocking && final(
            self).retries == old(self).retries,
            !authenticated ==> r is Err && final(self).phase == Phase::Locked && final(
            self).retries == old(self).retries + 1,
    {
        string_clear(&mut self.password_buffer);
        if authenticated {
            self.phase = Phase::Unlocking;
            Ok(())
        } else {
            self.retries = self.retries + 1;
            Err("Authentication Error!")
        }
    }

    /// Authentication against a known reference credential: the attempt
    /// unlocks exactly when the submitted secret equals the reference. In
    /// either case the secret buffer is empty afterwards, and a failed
    /// attempt grows the retry count by exactly one.
    pub fn attempt(&mut self, secret: &str, reference: &str) -> (r: Result<(), &'static str>)
        requires
            old(self).inv(),
            old(self).phase == Phase::Locked,
            old(self).retries < usize::MAX,
        ensures
            final(self).inv(),
            final(self).password_buffer@ == Seq::<char>::empty(),
            final(self).media == old(self).media,
            final(self).session_lock_surfaces@ == old(self).session_lock_surfaces@,
            final(self).exit == old(self).exit,
            r is Ok <==> secret@ == reference@,
            secret@ == reference@ ==> final(self).phase == Phase::Unlocking && final(
            self).retries == old(self).retries,
            secret@ != reference@ ==> final(self).phase == Phase::Locked && final(self).retries
                == old(self).retries + 1,
    {
        let authenticated = str_eq(secret, reference);
        self.unlock_with_auth(authenticated)
    }

    /// An output appeared while locked: create its surface; outputs that
    /// already have one, and phases outside the locked self-loop, change
    /// nothing. Says whether a surface was created.
    pub fn new_output(&mut self, output: OutputInfo) -> (created: bool)
        requires
            old(self).inv(),
        ensures
            final(self).inv(),
            final(self).phase == old(self).phase,
            final(self).media == old(self).media,
            final(self).password_buffer@ == old(self).password_buffer@,
            final(self).retries == old(self).retries,
            final(self).exit == old(self).exit,
            created == (old(self).phase == Phase::Locked && !old(self).spec_has_surface(
                output.id,
            )),
            created ==> final(self).session_lock_surfaces@ == old(
            self).session_lock_surfaces@.push(
                (LockSurfaceWrapper { output_id: output.id, width: 0, height: 0, configured: false }),
            ),
            !created ==> final(self).session_lock_surfaces@ == old(self).session_lock_surfaces@,
    {
        if !matches!(self.phase, Phase::Locked) {
            return false;
        }
        match self.find_surface(output.id) {
            Some(_) => false,
            None => {
                self.session_lock_surfaces.push(
                    LockSurfaceWrapper {
                        output_id: output.id,
                        width: 0,
                        height: 0,
                        configured: false,
                    },
                );
                true
            },
        }
    }

    /// An output disappeared: its surface is destroyed eagerly, releasing
    /// the render resources it exclusively owns; everything else stays.
    pub fn output_destroyed(&mut self, output_id: u32)
        requires
            old(self).inv(),
        ensures
            final(self).inv(),
            final(self).phase == old(self).phase,
            final(self).media == old(self).media,
            final(self).password_buffer@ == old(self).password_buffer@,
            final(self).retries == old(self).retries,
            final(self).exit == old(self).exit,
            final(self).session_lock_surfaces@ == old(self).session_lock_surfaces@.filter(
                Self::surface_keeps(output_id),
            ),
    {
        let ghost pred = Self::surface_keeps(output_id);
        let mut kept: Vec<LockSurfaceWrapper> = Vec::new();
        let n: usize = self.session_lock_surfaces.len();
        let mut i: usize = 0;
        while i < n
            invariant
                i <= n,
                n == self.session_lock_surfaces@.len(),
                self.session_lock_surfaces@ == old(self).session_lock_surfaces@,
                old(self).wf_surfaces(),
                pred == Self::surface_keeps(output_id),
                kept@ == self.session_lock_surfaces@.take(i as int).filter(pred),
                forall|a: int|
                    0 <= a < kept@.len() ==> exists|j: int|
                        0 <= j < i && #[trigger] kept@[a] == self.session_lock_surfaces@[j],
                forall|a: int, b: int|
                    0 <= a < b < kept@.len() ==> kept@[a].output_id != kept@[b].output_id,
            decreases n - i,
        {
            let s = self.session_lock_surfaces[i];
            proof {
                assert(self.session_lock_surfaces@.take(i + 1) =~= self.session_lock_surfaces@.take(
                    i as int,
                ).push(s));
                self.session_lock_surfaces@.take(i as int).lemma_filter_push(s, pred);
            }
            if s.output_id != output_id {
                let ghost kept_before = kept@;
                kept.push(s);
                proof {
                    assert(kept@[kept@.len() - 1] == self.session_lock_surfaces@[i as int]);
                    assert forall|a: int| 0 <= a < kept@.len() - 1 implies kept@[a].output_id
                        != s.output_id by {
                        assert(kept@[a] == kept_before[a]);
                        let j = choose|j: int|
                            0 <= j < i && #[trigger] kept_before[a]
                                == self.session_lock_surfaces@[j];
                        assert(self.session_lock_surfaces@[j].output_id
                            != self.session_lock_surfaces@[i as int].output_id);
                    }
                }
            }
            i = i + 1;
        }
        proof {
            assert(self.session_lock_surfaces@.take(n as int) =~= self.session_lock_surfaces@);
        }
        self.session_lock_surfaces = kept;
    }

    /// The compositor's "finished" notification, or the confirmed unlock
    /// round-trip: from any phase the session short-circuits to its final
    /// phase and the event loop may exit. No authentication happens: the
    /// retry count and the buffer stay as they were.
    pub fn finished(&mut self)
        requires
            old(self).inv(),
        ensures
            final(self).inv(),
            final(self).phase == Phase::Finished,
            final(self).exit == true,
            final(self).media == old(self).media,
            final(self).password_buffer@ == old(self).password_buffer@,
            final(self).retries == old(self).retries,
            final(self).session_lock_surfaces@ == old(self).session_lock_surfaces@,
    {
        self.phase = Phase::Finished;
        self.exit = true;
    }
}

/// A sequence whose elements all satisfy the predicate is left whole by
/// filtering.
proof fn lemma_filter_all(s: Seq<LockSurfaceWrapper>, pred: spec_fn(LockSurfaceWrapper) -> bool)
    requires
        forall|i: int| 0 <= i < s.len() ==> pred(#[trigger] s[i]),
    ensures
        s.filter(pred) == s,
    decreases s.len(),
{
    reveal(Seq::filter);
    if s.len() == 0 {
        assert(s.filter(pred) =~= s);
    } else {
        lemma_filter_all(s.drop_last(), pred);
        assert(s.filter(pred) =~= s);
    }
}

/// Destroying the surface of one present output in an arena with one surface
/// per output removes exactly one surface.
proof fn lemma_filter_removes_one(s: Seq<LockSurfaceWrapper>, output_id: u32)
    requires
        forall|i: int, j: int| 0 <= i < j < s.len() ==> s[i].output_id != s[j].output_id,
        exists|i: int| 0 <= i < s.len() && s[i].output_id == output_id,
    ensures
        s.filter(LockState::surface_keeps(output_id)).len() == s.len() - 1,
    decreases s.len(),
{
    reveal(Seq::filter);
    let pred = LockState::surface_keeps(output_id);
    let sub = s.drop_last();
    if s.last().output_id == output_id {
        assert forall|i: int| 0 <= i < sub.len() implies pred(#[trigger] sub[i]) by {
            assert(s[i].output_id != s[s.len() - 1].output_id);
        }
        lemma_filter_all(sub, pred);
    } else {
        let w = choose|i: int| 0 <= i < s.len() && s[i].output_id == output_id;
        assert(w < s.len() - 1);
        assert(0 <= w < sub.len() && sub[w].output_id == output_id);
        lemma_filter_removes_one(sub, output_id);
    }
}

/// Law (surface lifecycle): for the outputs known at lock time, exactly one
/// surface per output exists; when one of those outputs disappears, exactly
/// one surface is destroyed and every remaining surface covers another
/// output.
pub proof fn lemma_surface_lifecycle(outputs: Seq<OutputInfo>, removed: u32)
    requires
        forall|i: int, j: int| 0 <= i < j < outputs.len() ==> outputs[i].id != outputs[j].id,
        exists|i: int| 0 <= i < outputs.len() && outputs[i].id == removed,
    ensures
        spec_surfaces_for(outputs).len() == outputs.len(),
        spec_surfaces_for(outputs).filter(LockState::surface_keeps(removed)).len() == outputs.len()
            - 1,
        forall|k: int|
            0 <= k < outputs.len() - 1 ==> #[trigger] spec_surfaces_for(outputs).filter(
                LockState::surface_keeps(removed),
            )[k].output_id != removed,
{
    let surfaces = spec_surfaces_for(outputs);
    assert(forall|i: int| 0 <= i < surfaces.len() ==> #[trigger] surfaces[i].output_id
        == outputs[i].id);
    let w = choose|i: int| 0 <= i < outputs.len() && outputs[i].id == removed;
    assert(surfaces[w].output_id == removed);
    lemma_filter_removes_one(surfaces, removed);
    assert forall|k: int| 0 <= k < outputs.len() - 1 implies #[trigger] surfaces.filter(
        LockState::surface_keeps(removed),
    )[k].output_id != removed by {
        surfaces.lemma_filter_pred(LockState::surface_keeps(removed), k);
    }
}

/// Relies on whoami::username: the name of the user the session runs as.
/// What comes back depends on the environment, so nothing is promised.
#[verifier::external_body]
fn current_username() -> (r: String) {
    whoami::username()
}

} // verus!
