//! The checkpoint table: the instruction addresses at which the hooks act,
//! one per role. The addresses belong to a particular program image and are
//! handed to the hooks as configuration.
use vstd::prelude::*;

use crate::offsets;

verus! {

/// The address of each checkpoint role in the emulated program.
#[derive(Clone, Copy, Debug, PartialEq, Eq, Structural)]
pub struct Checkpoints {
    /// Start of the overworld loop, where the collision state is reset.
    pub overworld_loop_start: u16,
    /// Exit of the collision routine taken when the map has no sprites.
    pub sprite_check_exit_1: u16,
    /// Exit of the collision routine taken when no sprite is in the way.
    pub sprite_check_exit_2: u16,
    /// The text routine, once it has been set up for a text id.
    pub display_text_id_after_init: u16,
    /// Where the text routine continues once the message is found.
    pub display_text_setup_done: u16,
    /// The two places where the text processor fetches a character.
    pub get_next_char_1: u16,
    pub get_next_char_2: u16,
    /// The exit of the text processor.
    pub text_processor_end: u16,
    /// The routine that draws the program's sprites.
    pub update_sprites: u16,
    /// The routine that clears the program's sprites.
    pub clear_sprites: u16,
}

/// The addresses at which hooks are triggered.
pub open spec fn triggers(cp: Checkpoints) -> Seq<u16> {
    seq![
        cp.overworld_loop_start,
        cp.sprite_check_exit_1,
        cp.sprite_check_exit_2,
        cp.display_text_id_after_init,
        cp.get_next_char_1,
        cp.get_next_char_2,
        cp.text_processor_end,
        cp.update_sprites,
        cp.clear_sprites,
    ]
}

impl Checkpoints {
    /// The checkpoints of Pokemon Red.
    pub fn pokemon_red() -> (r: Checkpoints)
        ensures
            r.overworld_loop_start == offsets::OVERWORLD_LOOP_START,
            r.sprite_check_exit_1 == offsets::SPRITE_CHECK_EXIT_1,
            r.sprite_check_exit_2 == offsets::SPRITE_CHECK_EXIT_2,
            r.display_text_id_after_init == offsets::DISPLAY_TEXT_ID_AFTER_INIT,
            r.display_text_setup_done == offsets::DISPLAY_TEXT_SETUP_DONE,
            r.get_next_char_1 == offsets::GET_NEXT_CHAR_1,
            r.get_next_char_2 == offsets::GET_NEXT_CHAR_2,
            r.text_processor_end == offsets::TEXT_PROCESSOR_END,
            r.update_sprites == offsets::UPDATE_SPRITES,
            r.clear_sprites == offsets::CLEAR_SPRITES,
            triggers(r).no_duplicates(),
    {
        let r = Checkpoints {
            overworld_loop_start: offsets::OVERWORLD_LOOP_START,
            sprite_check_exit_1: offsets::SPRITE_CHECK_EXIT_1,
            sprite_check_exit_2: offsets::SPRITE_CHECK_EXIT_2,
            display_text_id_after_init: offsets::DISPLAY_TEXT_ID_AFTER_INIT,
            display_text_setup_done: offsets::DISPLAY_TEXT_SETUP_DONE,
            get_next_char_1: offsets::GET_NEXT_CHAR_1,
            get_next_char_2: offsets::GET_NEXT_CHAR_2,
            text_processor_end: offsets::TEXT_PROCESSOR_END,
            update_sprites: offsets::UPDATE_SPRITES,
            clear_sprites: offsets::CLEAR_SPRITES,
        };
        proof {
            let t = triggers(r);
            assert forall|i: int, j: int| 0 <= i < t.len() && 0 <= j < t.len() && i != j
                implies t[i] != t[j] by {
                assert(t[0] == 0x03FF && t[1] == 0x0BA0 && t[2] == 0x0BC4 && t[3] == 0x292B);
                assert(t[4] == 0x1B55 && t[5] == 0x1956 && t[6] == 0x1B5E && t[7] == 0x2429);
                assert(t[8] == 0x0082);
            }
        }
        r
    }

    /// Whether no two trigger roles share an address. A table that fails this
    /// is a configuration error, to be refused before the emulation starts.
    pub fn distinct(&self) -> (r: bool)
        ensures
            r == triggers(*self).no_duplicates(),
    {
        let t: Vec<u16> = vec![
            self.overworld_loop_start,
            self.sprite_check_exit_1,
            self.sprite_check_exit_2,
            self.display_text_id_after_init,
            self.get_next_char_1,
            self.get_next_char_2,
            self.text_processor_end,
            self.update_sprites,
            self.clear_sprites,
        ];
        assert(t@ =~= triggers(*self));
        let mut i: usize = 0;
        while i < t.len()
            invariant
                0 <= i <= t@.len(),
                t@ == triggers(*self),
                forall|a: int, b: int| 0 <= a < i && 0 <= b < t@.len() && a != b ==> t@[a] != t@[b],
            decreases t@.len() - i,
        {
            let mut j: usize = 0;
            while j < t.len()
                invariant
                    0 <= i < t@.len(),
                    t@ == triggers(*self),
                    0 <= j <= t@.len(),
                    forall|a: int, b: int| 0 <= a < i && 0 <= b < t@.len() && a != b ==> t@[a] != t@[b],
                    forall|b: int| 0 <= b < j && b != i ==> t@[i as int] != t@[b],
                decreases t@.len() - j,
            {
                if i != j && t[i] == t[j] {
                    return false;
                }
                j += 1;
            }
            i += 1;
        }
        true
    }
}

} // verus!
