use vstd::prelude::*;

use crate::external::random_index;

verus! {

#[derive(Clone, Copy, Debug, PartialEq, Eq, Structural)]
pub enum HintCategory {
    GameStrategy,
    SpaceFact,
    AlienTip,
    PowerUpTip,
}

#[derive(Clone, Debug)]
pub struct Hint {
    pub id: usize,
    pub category: HintCategory,
    pub content: String,
}

impl Hint {
    pub fn new(id: usize, category: HintCategory, content: String) -> (h: Self)
        ensures
            h.id == id,
            h.category == category,
            h.content == content,
    {
        Self { id, category, content }
    }
}

/// Category of the hint with the given id, ids running from 1 to 10.
pub open spec fn hint_category_at(id: int) -> HintCategory {
    if id == 1 || id == 6 || id == 10 {
        HintCategory::GameStrategy
    } else if id == 2 || id == 5 || id == 8 {
        HintCategory::SpaceFact
    } else if id == 3 || id == 7 {
        HintCategory::AlienTip
    } else {
        HintCategory::PowerUpTip
    }
}

/// Text of the hint with the given id, ids running from 1 to 10.
pub open spec fn hint_content_at(id: int) -> Seq<char> {
    if id == 1 {
        "Combine lower-level aliens first to create space for new ones!"@
    } else if id == 2 {
        "The largest known star, UY Scuti, is so big that 1.7 billion Suns could fit inside it!"@
    } else if id == 3 {
        "Higher-level aliens give more points when merged. Plan your combinations wisely!"@
    } else if id == 4 {
        "Row and Column power-ups can clear multiple aliens at once. Save them for strategic moments!"@
    } else if id == 5 {
        "A day on Venus is longer than its year! Venus takes 243 Earth days to rotate but only 225 Earth days to orbit the Sun."@
    } else if id == 6 {
        "Keep your grid organized! Try to group similar aliens together for easier merging."@
    } else if id == 7 {
        "The King Alien's level affects the strength of new aliens you receive. Upgrade it regularly!"@
    } else if id == 8 {
        "There are more stars in the universe than grains of sand on all Earth's beaches combined!"@
    } else if id == 9 {
        "Nearest Square power-up targets the closest alien. Use it when you need to clear a specific area!"@
    } else {
        "Complete daily tasks to earn rewards and boost your progress faster!"@
    }
}

/// One hint agrees with the fixed hint table at its position.
pub open spec fn hint_at(h: Hint, id: int) -> bool {
    &&& h.id == id
    &&& h.category == hint_category_at(id)
    &&& h.content@ == hint_content_at(id)
}

/// The full fixed hint list, ids 1 to 10 in order.
pub fn get_all_hints() -> (hints: Vec<Hint>)
    ensures
        hints@.len() == 10,
        forall|i: int| 0 <= i < 10 ==> hint_at(#[trigger] hints@[i], i + 1),
{
    let mut hints: Vec<Hint> = Vec::new();
    hints.push(
        Hint::new(
            1,
            HintCategory::GameStrategy,
            "Combine lower-level aliens first to create space for new ones!".to_owned(),
        ),
    );
    hints.push(
        Hint::new(
            2,
            HintCategory::SpaceFact,
            "The largest known star, UY Scuti, is so big that 1.7 billion Suns could fit inside it!".to_owned(),
        ),
    );
    hints.push(
        Hint::new(
            3,
            HintCategory::AlienTip,
            "Higher-level aliens give more points when merged. Plan your combinations wisely!".to_owned(),
        ),
    );
    hints.push(
        Hint::new(
            4,
            HintCategory::PowerUpTip,
            "Row and Column power-ups can clear multiple aliens at once. Save them for strategic moments!".to_owned(),
        ),
    );
    hints.push(
        Hint::new(
            5,
            HintCategory::SpaceFact,
            "A day on Venus is longer than its year! Venus takes 243 Earth days to rotate but only 225 Earth days to orbit the Sun.".to_owned(),
        ),
    );
    hints.push(
        Hint::new(
            6,
            HintCategory::GameStrategy,
            "Keep your grid organized! Try to group similar aliens together for easier merging.".to_owned(),
        ),
    );
    hints.push(
        Hint::new(
            7,
            HintCategory::AlienTip,
            "The King Alien's level affects the strength of new aliens you receive. Upgrade it regularly!".to_owned(),
        ),
    );
    hints.push(
        Hint::new(
            8,
            HintCategory::SpaceFact,
            "There are more stars in the universe than grains of sand on all Earth's beaches combined!".to_owned(),
        ),
    );
    hints.push(
        Hint::new(
            9,
            HintCategory::PowerUpTip,
            "Nearest Square power-up targets the closest alien. Use it when you need to clear a specific area!".to_owned(),
        ),
    );
    hints.push(
        Hint::new(
            10,
            HintCategory::GameStrategy,
            "Complete daily tasks to earn rewards and boost your progress faster!".to_owned(),
        ),
    );
    hints
}

/// One hint drawn at random from the fixed list.
pub fn get_random_hint() -> (h: Hint)
    ensures
        1 <= h.id <= 10,
        hint_at(h, h.id as int),
{
    let hints = get_all_hints();
    let i = random_index(10);
    let picked = &hints[i];
    Hint::new(picked.id, picked.category, picked.content.clone())
}

/// The hint with the given id, or None when no hint has it.
pub fn get_hint_by_id(id: usize) -> (r: Option<Hint>)
    ensures
        1 <= id <= 10 ==> (match r {
            Some(h) => hint_at(h, id as int),
            None => false,
        }),
        !(1 <= id <= 10) ==> r is None,
{
    if 1 <= id && id <= 10 {
        let hints = get_all_hints();
        let picked = &hints[id - 1];
        Some(Hint::new(picked.id, picked.category, picked.content.clone()))
    } else {
        None
    }
}

} // verus!
