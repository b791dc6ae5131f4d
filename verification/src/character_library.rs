use vstd::prelude::*;
use crate::animation::Animation;
use crate::animation::AnimationSerialized;
use crate::attacks::Attack;
use crate::attacks::AttackSerialized;
use crate::attacks::AttackView;
use crate::attacks::spec_attack_from;
use crate::character::movement::CharacterMovement;
use crate::character::movement::CharacterMovementSerialized;
use crate::character::movement::CharacterMovementView;
use crate::character::movement::copy_attacks;
use crate::collision::hitbox::Hitbox;
use crate::collision::hitbox::HitboxSerialized;
use crate::table::position;
use crate::table::put;
use crate::table::lemma_put;
use crate::table::spec_distinct;
use crate::table::spec_get;
use crate::table::spec_put;
use crate::table::spec_table;
use crate::text::namespaced;
use crate::text::spec_namespaced;

verus! {

/// Why character data could not be taken in.
#[derive(Debug)]
pub enum LoadError {
    /// The animation of this name has no last cell.
    BadAnimation { name: String },
    /// An attack asks for the hitbox of this name, and there is none.
    MissingHitbox { name: String },
    /// The animation of this name is asked for, and there is none.
    MissingAnimation { name: String },
}

/// A load error as plain values.
pub enum LoadErrorView {
    BadAnimation { name: Seq<char> },
    MissingHitbox { name: Seq<char> },
    MissingAnimation { name: Seq<char> },
}

impl View for LoadError {
    type V = LoadErrorView;

    open spec fn view(&self) -> LoadErrorView {
        match *self {
            LoadError::BadAnimation { name } => LoadErrorView::BadAnimation { name: name@ },
            LoadError::MissingHitbox { name } => LoadErrorView::MissingHitbox { name: name@ },
            LoadError::MissingAnimation { name } => LoadErrorView::MissingAnimation { name: name@ },
        }
    }
}

/// All that character data holds for one character.
#[derive(Debug)]
pub struct CharacterSheetSerialized {
    pub animations: Vec<AnimationSerialized>,
    pub hitboxes: Vec<HitboxSerialized>,
    pub attacks: Vec<AttackSerialized>,
    pub movement: CharacterMovementSerialized,
}

/// The tables of a match: the animations, hitboxes and attacks of all
/// characters under their names, and each character's movement. In each
/// table a name is found at its first entry.
#[derive(Debug)]
pub struct CharacterLibrary {
    pub animations: Vec<(String, Animation)>,
    pub hitboxes: Vec<(String, Hitbox)>,
    pub attacks: Vec<(String, Attack)>,
    pub movements: Vec<(String, CharacterMovement)>,
}

/// The tables of a match as plain values.
pub struct CharacterLibraryView {
    pub animations: Seq<(Seq<char>, Animation)>,
    pub hitboxes: Seq<(Seq<char>, Hitbox)>,
    pub attacks: Seq<(Seq<char>, AttackView)>,
    pub movements: Seq<(Seq<char>, CharacterMovementView)>,
}

impl View for CharacterLibrary {
    type V = CharacterLibraryView;

    open spec fn view(&self) -> CharacterLibraryView {
        CharacterLibraryView {
            animations: spec_table(self.animations@),
            hitboxes: spec_table(self.hitboxes@),
            attacks: spec_table(self.attacks@),
            movements: spec_table(self.movements@),
        }
    }
}

/// `table` once each entry of `more` was put into it, in order.
pub open spec fn spec_extend<V>(table: Seq<(Seq<char>, V)>, more: Seq<(Seq<char>, V)>) -> Seq<
    (Seq<char>, V),
>
    decreases more.len(),
{
    if more.len() == 0 {
        table
    } else {
        spec_put(spec_extend(table, more.drop_last()), more.last().0, more.last().1)
    }
}

/// `table` with the animations that `animations` describe for `character`;
/// or the name of the first that has no last cell.
pub open spec fn spec_with_animations(
    table: Seq<(Seq<char>, Animation)>,
    character: Seq<char>,
    animations: Seq<AnimationSerialized>,
) -> Result<Seq<(Seq<char>, Animation)>, Seq<char>>
    decreases animations.len(),
{
    if animations.len() == 0 {
        Ok(table)
    } else {
        match spec_with_animations(table, character, animations.drop_last()) {
            Err(id) => Err(id),
            Ok(before) => {
                let s = animations.last();
                let id = spec_namespaced(character, s.name@);
                if s.spec_is_sound() {
                    Ok(spec_put(before, id, Animation::spec_from_serialized(s)))
                } else {
                    Err(id)
                }
            },
        }
    }
}

/// `table` with the hitboxes that `hitboxes` describe for `character`.
pub open spec fn spec_with_hitboxes(
    table: Seq<(Seq<char>, Hitbox)>,
    character: Seq<char>,
    hitboxes: Seq<HitboxSerialized>,
) -> Seq<(Seq<char>, Hitbox)>
    decreases hitboxes.len(),
{
    if hitboxes.len() == 0 {
        table
    } else {
        let s = hitboxes.last();
        spec_put(
            spec_with_hitboxes(table, character, hitboxes.drop_last()),
            spec_namespaced(character, s.name@),
            Hitbox::spec_from_serialized(s),
        )
    }
}

/// `table` with the attacks that `attacks` describe for `character`, their
/// hitboxes taken from `hitboxes`; or the first name of a hitbox that
/// `hitboxes` does not hold.
pub open spec fn spec_with_attacks(
    table: Seq<(Seq<char>, AttackView)>,
    hitboxes: Seq<(Seq<char>, Hitbox)>,
    character: Seq<char>,
    attacks: Seq<AttackSerialized>,
) -> Result<Seq<(Seq<char>, AttackView)>, Seq<char>>
    decreases attacks.len(),
{
    if attacks.len() == 0 {
        Ok(table)
    } else {
        match spec_with_attacks(table, hitboxes, character, attacks.drop_last()) {
            Err(id) => Err(id),
            Ok(before) => {
                let s = attacks.last();
                match spec_attack_from(s, hitboxes, character) {
                    Ok(attack) => Ok(spec_put(before, spec_namespaced(character, s.name@), attack)),
                    Err(id) => Err(id),
                }
            },
        }
    }
}

impl CharacterLibraryView {
    /// In each table no name occurs twice.
    pub open spec fn wf(self) -> bool {
        &&& spec_distinct(self.animations)
        &&& spec_distinct(self.hitboxes)
        &&& spec_distinct(self.attacks)
        &&& spec_distinct(self.movements)
    }

    /// The tables once the data of `character` was taken in: its animations,
    /// hitboxes and attacks under their names with the character's name in
    /// front, and its movement under the character's name. Or what was wrong
    /// with the data: the first animation without a last cell, or else the
    /// first hitbox that an attack asks for in vain.
    pub open spec fn spec_load(
        self,
        character: Seq<char>,
        sheet: CharacterSheetSerialized,
    ) -> Result<CharacterLibraryView, LoadErrorView> {
        match spec_with_animations(self.animations, character, sheet.animations@) {
            Err(name) => Err(LoadErrorView::BadAnimation { name }),
            Ok(animations) => {
                let hitboxes = spec_with_hitboxes(self.hitboxes, character, sheet.hitboxes@);
                match spec_with_attacks(self.attacks, hitboxes, character, sheet.attacks@) {
                    Err(name) => Err(LoadErrorView::MissingHitbox { name }),
                    Ok(attacks) => Ok(
                        CharacterLibraryView {
                            animations,
                            hitboxes,
                            attacks,
                            movements: spec_put(
                                self.movements,
                                character,
                                CharacterMovementView::spec_from_serialized(
                                    sheet.movement,
                                    attacks,
                                    character,
                                ),
                            ),
                        },
                    ),
                }
            },
        }
    }
}

/// Copies a table whose values are plain.
pub fn copy_table<T: Copy + View>(entries: &Vec<(String, T)>) -> (copy: Vec<(String, T)>)
    ensures
        spec_table(copy@) == spec_table(entries@),
{
    let mut copy: Vec<(String, T)> = Vec::new();
    let mut i: usize = 0;
    while i < entries.len()
        invariant
            i <= entries.len(),
            copy.len() == i,
            forall|j: int| 0 <= j < i ==> copy@[j].0@ == entries@[j].0@ && copy@[j].1 == entries@[j].1,
        decreases entries.len() - i,
    {
        copy.push((entries[i].0.clone(), entries[i].1));
        i += 1;
    }
    assert(spec_table(copy@) =~= spec_table(entries@));
    copy
}

/// Copies a table of movements.
pub fn copy_movements(entries: &Vec<(String, CharacterMovement)>) -> (copy: Vec<
    (String, CharacterMovement),
>)
    ensures
        spec_table(copy@) == spec_table(entries@),
{
    let mut copy: Vec<(String, CharacterMovement)> = Vec::new();
    let mut i: usize = 0;
    while i < entries.len()
        invariant
            i <= entries.len(),
            copy.len() == i,
            forall|j: int|
                0 <= j < i ==> copy@[j].0@ == entries@[j].0@ && copy@[j].1@ == entries@[j].1@,
        decreases entries.len() - i,
    {
        copy.push((entries[i].0.clone(), entries[i].1.clone()));
        i += 1;
    }
    assert(spec_table(copy@) =~= spec_table(entries@));
    copy
}

impl CharacterLibrary {
    /// A library that holds nothing.
    pub fn new() -> (library: Self)
        ensures
            library@ == (CharacterLibraryView {
                animations: Seq::empty(),
                hitboxes: Seq::empty(),
                attacks: Seq::empty(),
                movements: Seq::empty(),
            }),
            library@.wf(),
    {
        let library = CharacterLibrary {
            animations: Vec::new(),
            hitboxes: Vec::new(),
            attacks: Vec::new(),
            movements: Vec::new(),
        };
        assert(spec_table(library.animations@) =~= Seq::empty());
        assert(spec_table(library.hitboxes@) =~= Seq::empty());
        assert(spec_table(library.attacks@) =~= Seq::empty());
        assert(spec_table(library.movements@) =~= Seq::empty());
        library
    }

    /// Puts each of `animations` into the library, in order.
    pub fn add_animations(&mut self, animations: Vec<(String, Animation)>)
        ensures
            final(self)@ == (CharacterLibraryView {
                animations: spec_extend(old(self)@.animations, spec_table(animations@)),
                ..old(self)@
            }),
            old(self)@.wf() ==> final(self)@.wf(),
    {
        proof {
            if old(self)@.wf() {
                lemma_extend_distinct(old(self)@.animations, spec_table(animations@));
            }
        }
        for entry in it: animations.into_iter()
            invariant
                it.seq() == animations@,
                self@ == (CharacterLibraryView {
                    animations: spec_extend(
                        old(self)@.animations,
                        spec_table(animations@).take(it.index()),
                    ),
                    ..old(self)@
                }),
        {
            proof {
                let upto = spec_table(animations@).take(it.index() + 1);
                assert(upto.drop_last() =~= spec_table(animations@).take(it.index()));
                assert(upto.last() == (entry.0@, entry.1@));
            }
            put(&mut self.animations, entry.0, entry.1);
        }
        assert(spec_table(animations@).take(animations@.len() as int) =~= spec_table(animations@));
    }

    /// Puts each of `hitboxes` into the library, in order.
    pub fn add_hitboxes(&mut self, hitboxes: Vec<(String, Hitbox)>)
        ensures
            final(self)@ == (CharacterLibraryView {
                hitboxes: spec_extend(old(self)@.hitboxes, spec_table(hitboxes@)),
                ..old(self)@
            }),
            old(self)@.wf() ==> final(self)@.wf(),
    {
        proof {
            if old(self)@.wf() {
                lemma_extend_distinct(old(self)@.hitboxes, spec_table(hitboxes@));
            }
        }
        for entry in it: hitboxes.into_iter()
            invariant
                it.seq() == hitboxes@,
                self@ == (CharacterLibraryView {
                    hitboxes: spec_extend(
                        old(self)@.hitboxes,
                        spec_table(hitboxes@).take(it.index()),
                    ),
                    ..old(self)@
                }),
        {
            proof {
                let upto = spec_table(hitboxes@).take(it.index() + 1);
                assert(upto.drop_last() =~= spec_table(hitboxes@).take(it.index()));
                assert(upto.last() == (entry.0@, entry.1@));
            }
            put(&mut self.hitboxes, entry.0, entry.1);
        }
        assert(spec_table(hitboxes@).take(hitboxes@.len() as int) =~= spec_table(hitboxes@));
    }

    /// Puts each of `attacks` into the library, in order.
    pub fn add_attacks(&mut self, attacks: Vec<(String, Attack)>)
        ensures
            final(self)@ == (CharacterLibraryView {
                attacks: spec_extend(old(self)@.attacks, spec_table(attacks@)),
                ..old(self)@
            }),
            old(self)@.wf() ==> final(self)@.wf(),
    {
        proof {
            if old(self)@.wf() {
                lemma_extend_distinct(old(self)@.attacks, spec_table(attacks@));
            }
        }
        for entry in it: attacks.into_iter()
            invariant
                it.seq() == attacks@,
                self@ == (CharacterLibraryView {
                    attacks: spec_extend(
                        old(self)@.attacks,
                        spec_table(attacks@).take(it.index()),
                    ),
                    ..old(self)@
                }),
        {
            proof {
                let upto = spec_table(attacks@).take(it.index() + 1);
                assert(upto.drop_last() =~= spec_table(attacks@).take(it.index()));
                assert(upto.last() == (entry.0@, entry.1@));
            }
            put(&mut self.attacks, entry.0, entry.1);
        }
        assert(spec_table(attacks@).take(attacks@.len() as int) =~= spec_table(attacks@));
    }

    /// Hands out the animation that the library holds under `anim_id`.
    pub fn get_animation(&self, anim_id: String) -> (animation: Option<Animation>)
        ensures
            animation == spec_get(self@.animations, anim_id@),
    {
        match position(&self.animations, &anim_id) {
            Some(i) => Some(self.animations[i].1),
            None => None,
        }
    }

    /// Hands out the hitbox that the library holds under `hitbox_id`.
    pub fn get_hitbox(&self, hitbox_id: String) -> (hitbox: Option<Hitbox>)
        ensures
            hitbox == spec_get(self@.hitboxes, hitbox_id@),
    {
        match position(&self.hitboxes, &hitbox_id) {
            Some(i) => Some(self.hitboxes[i].1),
            None => None,
        }
    }

    /// Hands out a copy of the movement of the character `movement_id`.
    pub fn get_movement(&self, movement_id: &str) -> (movement: Option<CharacterMovement>)
        ensures
            match movement {
                Some(found) => Some(found@) == spec_get(self@.movements, movement_id@),
                None => spec_get(self@.movements, movement_id@) is None,
            },
    {
        match position(&self.movements, &String::from_str(movement_id)) {
            Some(i) => Some(self.movements[i].1.clone()),
            None => None,
        }
    }

    /// The animations of all characters, each under its name.
    pub fn read_animations(&self) -> (animations: &Vec<(String, Animation)>)
        ensures
            animations == &self.animations,
    {
        &self.animations
    }

    /// The hitboxes of all characters, each under its name.
    pub fn read_hitboxes(&self) -> (hitboxes: &Vec<(String, Hitbox)>)
        ensures
            hitboxes == &self.hitboxes,
    {
        &self.hitboxes
    }

    /// The attacks of all characters, each under its name.
    pub fn read_attacks(&self) -> (attacks: &Vec<(String, Attack)>)
        ensures
            attacks == &self.attacks,
    {
        &self.attacks
    }
}

/// An animation that is unsound among the first is the first unsound of
/// all.
pub proof fn lemma_animations_fail_early(
    table: Seq<(Seq<char>, Animation)>,
    character: Seq<char>,
    animations: Seq<AnimationSerialized>,
    front: int,
)
    requires
        0 <= front <= animations.len(),
        spec_with_animations(table, character, animations.take(front)) is Err,
    ensures
        spec_with_animations(table, character, animations) == spec_with_animations(
            table,
            character,
            animations.take(front),
        ),
    decreases animations.len() - front,
{
    if front < animations.len() {
        assert(animations.take(front + 1).drop_last() =~= animations.take(front));
        lemma_animations_fail_early(table, character, animations, front + 1);
    } else {
        assert(animations.take(front) =~= animations);
    }
}

/// A hitbox that is missing for one of the first attacks is the first
/// missing of all.
pub proof fn lemma_attacks_fail_early(
    table: Seq<(Seq<char>, AttackView)>,
    hitboxes: Seq<(Seq<char>, Hitbox)>,
    character: Seq<char>,
    attacks: Seq<AttackSerialized>,
    front: int,
)
    requires
        0 <= front <= attacks.len(),
        spec_with_attacks(table, hitboxes, character, attacks.take(front)) is Err,
    ensures
        spec_with_attacks(table, hitboxes, character, attacks) == spec_with_attacks(
            table,
            hitboxes,
            character,
            attacks.take(front),
        ),
    decreases attacks.len() - front,
{
    if front < attacks.len() {
        assert(attacks.take(front + 1).drop_last() =~= attacks.take(front));
        lemma_attacks_fail_early(table, hitboxes, character, attacks, front + 1);
    } else {
        assert(attacks.take(front) =~= attacks);
    }
}

impl CharacterLibrary {
    /// Takes in the data of the character `character_name`. If the data is
    /// unsound the library stays as it was, and the error says what was
    /// wrong.
    pub fn load_character_data(
        &mut self,
        character_name: &str,
        sheet: CharacterSheetSerialized,
    ) -> (loaded: Result<(), LoadError>)
        ensures
            match old(self)@.spec_load(character_name@, sheet) {
                Ok(library) => loaded is Ok && final(self)@ == library,
                Err(error) => loaded matches Err(found) && found@ == error && final(self)@ == old(
                    self,
                )@,
            },
            old(self)@.wf() ==> final(self)@.wf(),
    {
        proof {
            if old(self)@.wf() {
                lemma_load_keeps_wf(old(self)@, character_name@, sheet);
            }
        }
        let saved_animations = copy_table(&self.animations);
        let saved_hitboxes = copy_table(&self.hitboxes);
        let saved_attacks = copy_attacks(&self.attacks);
        for animation in it: sheet.animations.into_iter()
            invariant
                it.seq() == sheet.animations@,
                spec_table(saved_animations@) == old(self)@.animations,
                spec_with_animations(
                    old(self)@.animations,
                    character_name@,
                    sheet.animations@.take(it.index()),
                ) == Ok::<Seq<(Seq<char>, Animation)>, Seq<char>>(self@.animations),
                self@.hitboxes == old(self)@.hitboxes,
                self@.attacks == old(self)@.attacks,
                self@.movements == old(self)@.movements,
        {
            proof {
                let upto = sheet.animations@.take(it.index() + 1);
                assert(upto.drop_last() =~= sheet.animations@.take(it.index()));
                assert(upto.last() == animation);
            }
            let id = namespaced(character_name, animation.name.as_str());
            if !animation.is_sound() {
                proof {
                    lemma_animations_fail_early(
                        old(self)@.animations,
                        character_name@,
                        sheet.animations@,
                        it.index() + 1,
                    );
                }
                self.animations = saved_animations;
                return Err(LoadError::BadAnimation { name: id });
            }
            put(&mut self.animations, id, Animation::from_serialized(animation));
        }
        assert(sheet.animations@.take(sheet.animations@.len() as int) =~= sheet.animations@);
        for hitbox in it: sheet.hitboxes.into_iter()
            invariant
                it.seq() == sheet.hitboxes@,
                self@.hitboxes == spec_with_hitboxes(
                    old(self)@.hitboxes,
                    character_name@,
                    sheet.hitboxes@.take(it.index()),
                ),
                spec_with_animations(old(self)@.animations, character_name@, sheet.animations@)
                    == Ok::<Seq<(Seq<char>, Animation)>, Seq<char>>(self@.animations),
                self@.attacks == old(self)@.attacks,
                self@.movements == old(self)@.movements,
        {
            proof {
                let upto = sheet.hitboxes@.take(it.index() + 1);
                assert(upto.drop_last() =~= sheet.hitboxes@.take(it.index()));
                assert(upto.last() == hitbox);
            }
            let id = namespaced(character_name, hitbox.name.as_str());
            put(&mut self.hitboxes, id, Hitbox::from_serialized(hitbox));
        }
        assert(sheet.hitboxes@.take(sheet.hitboxes@.len() as int) =~= sheet.hitboxes@);
        for attack in it: sheet.attacks.into_iter()
            invariant
                it.seq() == sheet.attacks@,
                spec_table(saved_animations@) == old(self)@.animations,
                spec_table(saved_hitboxes@) == old(self)@.hitboxes,
                spec_table(saved_attacks@) == old(self)@.attacks,
                self@.hitboxes == spec_with_hitboxes(
                    old(self)@.hitboxes,
                    character_name@,
                    sheet.hitboxes@,
                ),
                spec_with_animations(old(self)@.animations, character_name@, sheet.animations@)
                    == Ok::<Seq<(Seq<char>, Animation)>, Seq<char>>(self@.animations),
                spec_with_attacks(
                    old(self)@.attacks,
                    self@.hitboxes,
                    character_name@,
                    sheet.attacks@.take(it.index()),
                ) == Ok::<Seq<(Seq<char>, AttackView)>, Seq<char>>(self@.attacks),
                self@.movements == old(self)@.movements,
        {
            proof {
                let upto = sheet.attacks@.take(it.index() + 1);
                assert(upto.drop_last() =~= sheet.attacks@.take(it.index()));
                assert(upto.last() == attack);
            }
            let id = namespaced(character_name, attack.name.as_str());
            match Attack::from_serialized(attack, self, character_name) {
                Ok(built) => {
                    put(&mut self.attacks, id, built);
                },
                Err(error) => {
                    proof {
                        lemma_attacks_fail_early(
                            old(self)@.attacks,
                            self@.hitboxes,
                            character_name@,
                            sheet.attacks@,
                            it.index() + 1,
                        );
                    }
                    self.animations = saved_animations;
                    self.hitboxes = saved_hitboxes;
                    self.attacks = saved_attacks;
                    return Err(error);
                },
            }
        }
        assert(sheet.attacks@.take(sheet.attacks@.len() as int) =~= sheet.attacks@);
        let movement = CharacterMovement::from_serialized(sheet.movement, self, character_name);
        put(&mut self.movements, String::from_str(character_name), movement);
        Ok(())
    }
}

/// Putting entries into a table leaves no name twice.
pub proof fn lemma_extend_distinct<V>(table: Seq<(Seq<char>, V)>, more: Seq<(Seq<char>, V)>)
    requires
        spec_distinct(table),
    ensures
        spec_distinct(spec_extend(table, more)),
    decreases more.len(),
{
    if more.len() > 0 {
        lemma_extend_distinct(table, more.drop_last());
        lemma_put(spec_extend(table, more.drop_last()), more.last().0, more.last().1);
    }
}

/// Taking animations in leaves no name twice.
pub proof fn lemma_animations_distinct(
    table: Seq<(Seq<char>, Animation)>,
    character: Seq<char>,
    animations: Seq<AnimationSerialized>,
)
    requires
        spec_distinct(table),
    ensures
        spec_with_animations(table, character, animations) matches Ok(after) ==> spec_distinct(
            after,
        ),
    decreases animations.len(),
{
    if animations.len() > 0 {
        lemma_animations_distinct(table, character, animations.drop_last());
        match spec_with_animations(table, character, animations.drop_last()) {
            Ok(before) => {
                let s = animations.last();
                lemma_put(
                    before,
                    spec_namespaced(character, s.name@),
                    Animation::spec_from_serialized(s),
                );
            },
            Err(_) => {},
        }
    }
}

/// Taking hitboxes in leaves no name twice.
pub proof fn lemma_hitboxes_distinct(
    table: Seq<(Seq<char>, Hitbox)>,
    character: Seq<char>,
    hitboxes: Seq<HitboxSerialized>,
)
    requires
        spec_distinct(table),
    ensures
        spec_distinct(spec_with_hitboxes(table, character, hitboxes)),
    decreases hitboxes.len(),
{
    if hitboxes.len() > 0 {
        lemma_hitboxes_distinct(table, character, hitboxes.drop_last());
        let s = hitboxes.last();
        lemma_put(
            spec_with_hitboxes(table, character, hitboxes.drop_last()),
            spec_namespaced(character, s.name@),
            Hitbox::spec_from_serialized(s),
        );
    }
}

/// Taking attacks in leaves no name twice.
pub proof fn lemma_attacks_distinct(
    table: Seq<(Seq<char>, AttackView)>,
    hitboxes: Seq<(Seq<char>, Hitbox)>,
    character: Seq<char>,
    attacks: Seq<AttackSerialized>,
)
    requires
        spec_distinct(table),
    ensures
        spec_with_attacks(table, hitboxes, character, attacks) matches Ok(after)
            ==> spec_distinct(after),
    decreases attacks.len(),
{
    if attacks.len() > 0 {
        lemma_attacks_distinct(table, hitboxes, character, attacks.drop_last());
        match spec_with_attacks(table, hitboxes, character, attacks.drop_last()) {
            Ok(before) => {
                let s = attacks.last();
                match spec_attack_from(s, hitboxes, character) {
                    Ok(attack) => {
                        lemma_put(before, spec_namespaced(character, s.name@), attack);
                    },
                    Err(_) => {},
                }
            },
            Err(_) => {},
        }
    }
}

/// A library in which no name occurs twice stays so when it takes a
/// character in, and then holds the character's movement.
pub proof fn lemma_load_keeps_wf(
    library: CharacterLibraryView,
    character: Seq<char>,
    sheet: CharacterSheetSerialized,
)
    requires
        library.wf(),
    ensures
        library.spec_load(character, sheet) matches Ok(after) ==> after.wf() && spec_get(
            after.movements,
            character,
        ) == Some(
            CharacterMovementView::spec_from_serialized(sheet.movement, after.attacks, character),
        ),
{
    lemma_animations_distinct(library.animations, character, sheet.animations@);
    lemma_hitboxes_distinct(library.hitboxes, character, sheet.hitboxes@);
    let hitboxes = spec_with_hitboxes(library.hitboxes, character, sheet.hitboxes@);
    lemma_attacks_distinct(library.attacks, hitboxes, character, sheet.attacks@);
    match library.spec_load(character, sheet) {
        Ok(after) => {
            lemma_put(
                library.movements,
                character,
                CharacterMovementView::spec_from_serialized(
                    sheet.movement,
                    after.attacks,
                    character,
                ),
            );
        },
        Err(_) => {},
    }
}

} // verus!
