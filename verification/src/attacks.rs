use vstd::prelude::*;
use crate::collision::hitbox::Hitbox;
use crate::math::Vec2;
use crate::table::position;
use crate::table::spec_get;
use crate::character_library::CharacterLibrary;
use crate::character_library::LoadError;
use crate::text::namespaced;
use crate::text::spec_namespaced;

verus! {

/// A moment of an attack at which a hitbox appears.
#[derive(Debug, PartialEq, Eq, Structural, Clone, Copy)]
pub struct HitboxEvent {
    /// The hitbox that appears.
    pub hitbox: Hitbox,
    /// Where it appears, from the character's own position.
    pub position: Vec2,
    pub size: Vec2,
    /// The frame of the attack at which it appears.
    pub frame: u8,
}

/// An attack that a character can perform.
#[derive(Debug)]
pub struct Attack {
    /// The motion and button that perform the attack, such as `5A`.
    pub name: String,
    /// The moments of the attack at which hitboxes appear.
    pub hitbox_events: Vec<HitboxEvent>,
    /// For how many frames the attack keeps the character busy.
    pub busy: u8,
}

/// An attack as plain values.
pub struct AttackView {
    pub name: Seq<char>,
    pub hitbox_events: Seq<HitboxEvent>,
    pub busy: u8,
}

impl View for Attack {
    type V = AttackView;

    open spec fn view(&self) -> AttackView {
        AttackView { name: self.name@, hitbox_events: self.hitbox_events@, busy: self.busy }
    }
}

impl Attack {
    pub fn new(name: String, hitbox_events: Vec<HitboxEvent>, busy: u8) -> (attack: Self)
        ensures
            attack@ == (AttackView { name: name@, hitbox_events: hitbox_events@, busy }),
    {
        Attack { name, hitbox_events, busy }
    }
}

/// Copies a list of hitbox events.
pub fn copy_events(events: &Vec<HitboxEvent>) -> (copy: Vec<HitboxEvent>)
    ensures
        copy@ == events@,
{
    let mut copy: Vec<HitboxEvent> = Vec::new();
    let mut i: usize = 0;
    while i < events.len()
        invariant
            i <= events.len(),
            copy@ == events@.take(i as int),
        decreases events.len() - i,
    {
        copy.push(events[i]);
        i += 1;
        assert(copy@ =~= events@.take(i as int));
    }
    assert(events@.take(i as int) =~= events@);
    copy
}

impl Clone for Attack {
    fn clone(&self) -> (copy: Self)
        ensures
            copy@ == self@,
    {
        Attack {
            name: self.name.clone(),
            hitbox_events: copy_events(&self.hitbox_events),
            busy: self.busy,
        }
    }
}

impl Default for Attack {
    fn default() -> (attack: Self)
        ensures
            attack@ == (AttackView { name: Seq::empty(), hitbox_events: Seq::empty(), busy: 0 }),
    {
        Attack { name: String::new(), hitbox_events: Vec::new(), busy: 0 }
    }
}

/// A moment of an attack as character data describes it: the hitbox is
/// given by the name that the character calls it.
#[derive(Debug)]
pub struct HitboxEventSerialized {
    pub hitbox: String,
    pub position: Vec2,
    pub size: Vec2,
    pub frame: u8,
}

/// An attack as character data describes it.
#[derive(Debug)]
pub struct AttackSerialized {
    pub name: String,
    pub hitbox_events: Vec<HitboxEventSerialized>,
    pub busy: u8,
}

/// The moments that `events` describe for `character`, each with the hitbox
/// that `hitboxes` holds under its name; or the first name that `hitboxes`
/// does not hold.
pub open spec fn spec_events_from(
    events: Seq<HitboxEventSerialized>,
    hitboxes: Seq<(Seq<char>, Hitbox)>,
    character: Seq<char>,
) -> Result<Seq<HitboxEvent>, Seq<char>>
    decreases events.len(),
{
    if events.len() == 0 {
        Ok(Seq::empty())
    } else {
        match spec_events_from(events.drop_last(), hitboxes, character) {
            Err(id) => Err(id),
            Ok(before) => {
                let s = events.last();
                let id = spec_namespaced(character, s.hitbox@);
                match spec_get(hitboxes, id) {
                    Some(hitbox) => Ok(
                        before.push(
                            HitboxEvent { hitbox, position: s.position, size: s.size, frame: s.frame },
                        ),
                    ),
                    None => Err(id),
                }
            },
        }
    }
}

/// The attack that `s` describes for `character`; or the first name of a
/// hitbox that `hitboxes` does not hold.
pub open spec fn spec_attack_from(
    s: AttackSerialized,
    hitboxes: Seq<(Seq<char>, Hitbox)>,
    character: Seq<char>,
) -> Result<AttackView, Seq<char>> {
    match spec_events_from(s.hitbox_events@, hitboxes, character) {
        Ok(hitbox_events) => Ok(AttackView { name: s.name@, hitbox_events, busy: s.busy }),
        Err(id) => Err(id),
    }
}

/// What is built from a description, or what was wrong with it, as plain
/// values.
pub open spec fn spec_built(built: Result<Attack, LoadError>) -> Result<AttackView, Seq<char>> {
    match built {
        Ok(attack) => Ok(attack@),
        Err(LoadError::MissingHitbox { name }) => Err(name@),
        Err(_) => Err(Seq::empty()),
    }
}

impl HitboxEvent {
    /// The hitbox that comes into play at this moment of an attack of
    /// `player_id`: the moment's hitbox, now that player's.
    pub fn spawn(&self, player_id: u8) -> (hitbox: Hitbox)
        ensures
            hitbox == (Hitbox { player_id, ..self.hitbox }),
    {
        let mut hitbox = self.hitbox;
        hitbox.player_id = player_id;
        hitbox
    }

    /// Builds the moment that `s` describes for `character_name`, with the
    /// hitbox that `library` holds under its name. Without such a hitbox the
    /// error names it.
    pub fn from_serialized(
        s: HitboxEventSerialized,
        library: &CharacterLibrary,
        character_name: &str,
    ) -> (event: Result<HitboxEvent, LoadError>)
        ensures
            match spec_get(library@.hitboxes, spec_namespaced(character_name@, s.hitbox@)) {
                Some(hitbox) => event == Ok::<HitboxEvent, LoadError>(
                    HitboxEvent { hitbox, position: s.position, size: s.size, frame: s.frame },
                ),
                None => event matches Err(LoadError::MissingHitbox { name }) && name@
                    == spec_namespaced(character_name@, s.hitbox@),
            },
    {
        let id = namespaced(character_name, s.hitbox.as_str());
        match position(&library.hitboxes, &id) {
            Some(i) => Ok(
                HitboxEvent {
                    hitbox: library.hitboxes[i].1,
                    position: s.position,
                    size: s.size,
                    frame: s.frame,
                },
            ),
            None => Err(LoadError::MissingHitbox { name: id }),
        }
    }
}

impl Attack {
    /// Builds the attack that `s` describes for `character_name`, with the
    /// hitboxes that `library` holds under their names. If a hitbox is not
    /// there, the error names the first such.
    pub fn from_serialized(
        s: AttackSerialized,
        library: &CharacterLibrary,
        character_name: &str,
    ) -> (attack: Result<Attack, LoadError>)
        ensures
            attack matches Err(error) ==> error is MissingHitbox,
            spec_built(attack) == spec_attack_from(s, library@.hitboxes, character_name@),
    {
        let mut hitbox_events: Vec<HitboxEvent> = Vec::new();
        for s_he in it: s.hitbox_events.into_iter()
            invariant
                it.seq() == s.hitbox_events@,
                spec_events_from(
                    s.hitbox_events@.take(it.index()),
                    library@.hitboxes,
                    character_name@,
                ) == Ok::<Seq<HitboxEvent>, Seq<char>>(hitbox_events@),
        {
            proof {
                let upto = s.hitbox_events@.take(it.index() + 1);
                assert(upto.drop_last() =~= s.hitbox_events@.take(it.index()));
                assert(upto.last() == s_he);
            }
            match HitboxEvent::from_serialized(s_he, library, character_name) {
                Ok(event) => {
                    hitbox_events.push(event);
                },
                Err(error) => {
                    proof {
                        lemma_events_fail_early(
                            s.hitbox_events@,
                            library@.hitboxes,
                            character_name@,
                            it.index() + 1,
                        );
                    }
                    return Err(error);
                },
            }
        }
        assert(s.hitbox_events@.take(s.hitbox_events@.len() as int) =~= s.hitbox_events@);
        Ok(Attack { name: s.name, hitbox_events, busy: s.busy })
    }
}

/// A name that is missing among the first moments is missing among all.
pub proof fn lemma_events_fail_early(
    events: Seq<HitboxEventSerialized>,
    hitboxes: Seq<(Seq<char>, Hitbox)>,
    character: Seq<char>,
    front: int,
)
    requires
        0 <= front <= events.len(),
        spec_events_from(events.take(front), hitboxes, character) is Err,
    ensures
        spec_events_from(events, hitboxes, character) == spec_events_from(
            events.take(front),
            hitboxes,
            character,
        ),
    decreases events.len() - front,
{
    if front < events.len() {
        assert(events.take(front + 1).drop_last() =~= events.take(front));
        lemma_events_fail_early(events, hitboxes, character, front + 1);
    } else {
        assert(events.take(front) =~= events);
    }
}

} // verus!
