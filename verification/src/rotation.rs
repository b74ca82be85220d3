//! Deterministic, issue-number-keyed selection from fixed text tables.
//!
//! Every rotated string is chosen by the same rule: for a table of size
//! `n`, take `r = issue_number % n`; remainder `0` selects the table's
//! last entry, any other remainder `r` selects the entry at position
//! `r - 1`. The tables deliberately have different sizes so that their
//! rotations never line up across issues.

use vstd::prelude::*;

verus! {

/// Position selected from a table of length `len` for issue number `n`:
/// remainder `0` picks the last entry, remainder `r > 0` picks entry `r - 1`.
pub open spec fn rotation_index(n: nat, len: nat) -> nat
    recommends
        len > 0,
{
    if n % len == 0 {
        (len - 1) as nat
    } else {
        (n % len - 1) as nat
    }
}

/// The selected position is always inside the table.
pub proof fn lemma_rotation_index_in_range(n: nat, len: nat)
    requires
        len > 0,
    ensures
        rotation_index(n, len) < len,
{
}

/// The rotation is periodic: adding the table size to the issue number
/// selects the same entry.
pub proof fn lemma_rotation_periodic(n: nat, len: nat)
    requires
        len > 0,
    ensures
        rotation_index(n + len, len) == rotation_index(n, len),
{
    vstd::arithmetic::div_mod::lemma_mod_add_multiples_vanish(n as int, len as int);
}

/// A remainder of zero always selects the table's last entry.
pub proof fn lemma_rotation_zero_selects_last(n: nat, len: nat)
    requires
        len > 0,
        n % len == 0,
    ensures
        rotation_index(n, len) == len - 1,
{
}

/// Entry of `table` selected for issue number `n` by the rotation rule.
pub open spec fn pick(table: Seq<Seq<char>>, n: nat) -> Seq<char>
    recommends
        table.len() > 0,
{
    table[rotation_index(n, table.len()) as int]
}

/// The selection rule never distinguishes issue numbers that differ by
/// a whole number of table lengths, and a remainder of zero always lands
/// on the last entry.
pub proof fn lemma_pick_rotation(table: Seq<Seq<char>>, n: nat)
    requires
        table.len() > 0,
    ensures
        pick(table, n + table.len()) == pick(table, n),
        n % table.len() == 0 ==> pick(table, n) == table.last(),
{
    lemma_rotation_periodic(n, table.len());
}

/// The fixed table behind `generate_greeting`, in rotation order.
pub open spec fn greeting_table() -> Seq<Seq<char>> {
    seq![
        "Hey there"@,
        "Heyo"@,
        "What's up"@,
        "Howdy"@,
        "Good day"@,
        "Hey"@,
        "Hi there"@,
        "Welcome back"@,
        "Ciao"@,
        "Hello"@,
    ]
}

/// Greeting that opens an issue.
pub fn generate_greeting(issue_number: u32) -> (r: String)
    ensures
        r@ == pick(greeting_table(), issue_number as nat),
{
    let r = match issue_number % 10 {
        1 => "Hey there",
        2 => "Heyo",
        3 => "What's up",
        4 => "Howdy",
        5 => "Good day",
        6 => "Hey",
        7 => "Hi there",
        8 => "Welcome back",
        9 => "Ciao",
        _ => "Hello",
    };
    String::from_str(r)
}

/// The fixed table behind `generate_closing_title`, in rotation order.
pub open spec fn closing_title_table() -> Seq<Seq<char>> {
    seq![
        "That's a wrap! 🌯"@,
        "Mission accomplished! 🚀"@,
        "And we're done here! ✨"@,
        "Time to close the book! 📖"@,
        "That's all for today! 🌟"@,
        "End of transmission! 📡"@,
        "Final chapter complete! 📚"@,
        "Show's over, folks! 🎭"@,
        "Journey's end reached! 🏁"@,
        "That's all folks! 🐰"@,
    ]
}

/// Heading of the closing section.
pub fn generate_closing_title(issue_number: u32) -> (r: String)
    ensures
        r@ == pick(closing_title_table(), issue_number as nat),
{
    let r = match issue_number % 10 {
        1 => "That's a wrap! 🌯",
        2 => "Mission accomplished! 🚀",
        3 => "And we're done here! ✨",
        4 => "Time to close the book! 📖",
        5 => "That's all for today! 🌟",
        6 => "End of transmission! 📡",
        7 => "Final chapter complete! 📚",
        8 => "Show's over, folks! 🎭",
        9 => "Journey's end reached! 🏁",
        _ => "That's all folks! 🐰",
    };
    String::from_str(r)
}

/// The fixed table behind `generate_closing_message`, in rotation order.
pub open spec fn closing_message_table() -> Seq<Seq<char>> {
    seq![
        "Thanks for sticking around till the end! If you found something interesting or have suggestions brewing, just hit reply – we're all ears! 👂"@,
        "You made it to the finish line! Got thoughts, feedback, or just want to say hi? Drop us a line – we love hearing from you! 💌"@,
        "Another issue in the books! If anything caught your eye or you've got ideas to share, reply away – your input means the world! 🌍"@,
        "Thanks for joining us on this coding journey! Questions, comments, or cool discoveries? Hit that reply button – let's chat! 💬"@,
        "You've reached the end of our digital adventure! Enjoyed the ride? Got feedback? Just reply – we're always excited to connect! 🎉"@,
        "Mission complete! If you loved it, learned something, or want to suggest improvements, reply and let us know – we thrive on your feedback! 🌱"@,
        "Final bytes processed! Your thoughts and suggestions fuel our passion – hit reply and share what's on your mind! 🔥"@,
        "Credits are rolling! If this issue sparked joy or ideas, don't be shy – reply and tell us all about it! ✨"@,
        "Journey's end! Whether you're buzzing with excitement or have constructive feedback, reply and keep the conversation going! 🗣️"@,
        "Thank you for getting to the end of this issue! If you enjoyed it or simply want to suggest something, hit reply and let us know! We'd love to hear from you! ❤️"@,
    ]
}

/// Sign-off message of the closing section.
pub fn generate_closing_message(issue_number: u32) -> (r: String)
    ensures
        r@ == pick(closing_message_table(), issue_number as nat),
{
    let r = match issue_number % 10 {
        1 => "Thanks for sticking around till the end! If you found something interesting or have suggestions brewing, just hit reply – we're all ears! 👂",
        2 => "You made it to the finish line! Got thoughts, feedback, or just want to say hi? Drop us a line – we love hearing from you! 💌",
        3 => "Another issue in the books! If anything caught your eye or you've got ideas to share, reply away – your input means the world! 🌍",
        4 => "Thanks for joining us on this coding journey! Questions, comments, or cool discoveries? Hit that reply button – let's chat! 💬",
        5 => "You've reached the end of our digital adventure! Enjoyed the ride? Got feedback? Just reply – we're always excited to connect! 🎉",
        6 => "Mission complete! If you loved it, learned something, or want to suggest improvements, reply and let us know – we thrive on your feedback! 🌱",
        7 => "Final bytes processed! Your thoughts and suggestions fuel our passion – hit reply and share what's on your mind! 🔥",
        8 => "Credits are rolling! If this issue sparked joy or ideas, don't be shy – reply and tell us all about it! ✨",
        9 => "Journey's end! Whether you're buzzing with excitement or have constructive feedback, reply and keep the conversation going! 🗣️",
        _ => "Thank you for getting to the end of this issue! If you enjoyed it or simply want to suggest something, hit reply and let us know! We'd love to hear from you! ❤️",
    };
    String::from_str(r)
}

/// The fixed table behind `generate_intro_closing`, in rotation order.
pub open spec fn intro_closing_table() -> Seq<Seq<char>> {
    seq![
        "Enjoy the journey ahead!"@,
        "Let's dive in and learn together!"@,
        "Time to explore and experiment!"@,
        "May your code compile on the first try!"@,
        "Happy learning and building!"@,
        "Let's get coding!"@,
        "Enjoy this issue and keep shipping!"@,
        "Hope you find something inspiring!"@,
        "Ready to level up your skills?"@,
        "Make something you are proud of!"@,
        "One small step today counts!"@,
        "Build, break, learn, repeat!"@,
        "Stay curious and keep tinkering!"@,
        "Push an idea a little further!"@,
        "Create value, have fun!"@,
        "Sharpen your tools and ship!"@,
        "Try it, test it, teach it!"@,
        "Progress beats perfection!"@,
        "Learn a little, apply a lot!"@,
        "Trust the process and iterate!"@,
        "Let curiosity lead the way!"@,
        "Make it work, then make it better!"@,
        "Small wins add up fast!"@,
        "Build something delightful!"@,
        "Keep going, you are close!"@,
        "Sketch, code, refine!"@,
        "Turn ideas into experiments!"@,
        "Read, try, reflect, repeat!"@,
        "Ship the smallest useful thing!"@,
        "Improve 1% today!"@,
        "Stretch your skills a notch!"@,
        "Refactor with kindness to your future self!"@,
        "Document now, thank yourself later!"@,
        "Chase clarity, not cleverness!"@,
        "Learn by doing and sharing!"@,
        "Ask good questions, find better answers!"@,
        "Make it simple and solid!"@,
        "Quality is a habit. Practice!"@,
        "Explore the edges of your comfort zone!"@,
        "Keep building. The future is compounding!"@,
        "Happy reading and coding!"@,
    ]
}

/// Sentence that closes the introduction.
pub fn generate_intro_closing(issue_number: u32) -> (r: String)
    ensures
        r@ == pick(intro_closing_table(), issue_number as nat),
{
    let r = match issue_number % 41 {
        1 => "Enjoy the journey ahead!",
        2 => "Let's dive in and learn together!",
        3 => "Time to explore and experiment!",
        4 => "May your code compile on the first try!",
        5 => "Happy learning and building!",
        6 => "Let's get coding!",
        7 => "Enjoy this issue and keep shipping!",
        8 => "Hope you find something inspiring!",
        9 => "Ready to level up your skills?",
        10 => "Make something you are proud of!",
        11 => "One small step today counts!",
        12 => "Build, break, learn, repeat!",
        13 => "Stay curious and keep tinkering!",
        14 => "Push an idea a little further!",
        15 => "Create value, have fun!",
        16 => "Sharpen your tools and ship!",
        17 => "Try it, test it, teach it!",
        18 => "Progress beats perfection!",
        19 => "Learn a little, apply a lot!",
        20 => "Trust the process and iterate!",
        21 => "Let curiosity lead the way!",
        22 => "Make it work, then make it better!",
        23 => "Small wins add up fast!",
        24 => "Build something delightful!",
        25 => "Keep going, you are close!",
        26 => "Sketch, code, refine!",
        27 => "Turn ideas into experiments!",
        28 => "Read, try, reflect, repeat!",
        29 => "Ship the smallest useful thing!",
        30 => "Improve 1% today!",
        31 => "Stretch your skills a notch!",
        32 => "Refactor with kindness to your future self!",
        33 => "Document now, thank yourself later!",
        34 => "Chase clarity, not cleverness!",
        35 => "Learn by doing and sharing!",
        36 => "Ask good questions, find better answers!",
        37 => "Make it simple and solid!",
        38 => "Quality is a habit. Practice!",
        39 => "Explore the edges of your comfort zone!",
        40 => "Keep building. The future is compounding!",
        _ => "Happy reading and coding!",
    };
    String::from_str(r)
}

/// The fixed table behind `generate_extra_content_title`, in rotation order.
pub open spec fn extra_content_title_table() -> Seq<Seq<char>> {
    seq![
        "You have to BELIEVE in the power of more content! 🙏"@,
        "More awesome content for your reading pleasure! 📚"@,
        "Extra picks to feed your curiosity! 🧠"@,
        "Bonus content because we love you! ❤️"@,
        "Additional gems we couldn't leave out! 💎"@,
        "More quality content coming your way! ⭐"@,
        "Extra goodies for the curious minds! 🔍"@,
        "Supplementary reads worth your time! ⏰"@,
        "More content to expand your horizons! 🌅"@,
        "Hand-picked extras to keep your brain buzzing! ⚡"@,
    ]
}

/// Heading of the extra-links section.
pub fn generate_extra_content_title(issue_number: u32) -> (r: String)
    ensures
        r@ == pick(extra_content_title_table(), issue_number as nat),
{
    let r = match issue_number % 10 {
        1 => "You have to BELIEVE in the power of more content! 🙏",
        2 => "More awesome content for your reading pleasure! 📚",
        3 => "Extra picks to feed your curiosity! 🧠",
        4 => "Bonus content because we love you! ❤️",
        5 => "Additional gems we couldn't leave out! 💎",
        6 => "More quality content coming your way! ⭐",
        7 => "Extra goodies for the curious minds! 🔍",
        8 => "Supplementary reads worth your time! ⏰",
        9 => "More content to expand your horizons! 🌅",
        _ => "Hand-picked extras to keep your brain buzzing! ⚡",
    };
    String::from_str(r)
}

/// The fixed table behind `pick_subject_emoji`, in rotation order.
pub open spec fn subject_emoji_table() -> Seq<Seq<char>> {
    seq![
        "🔶"@,
        "📩"@,
        "🟢"@,
        "📧"@,
        "🔺"@,
        "🟡"@,
        "🧐"@,
        "💾"@,
        "🔷"@,
        "📋"@,
        "🟣"@,
        "🚩"@,
        "🔴"@,
        "🧶"@,
        "🤓"@,
        "✳️"@,
        "🟠"@,
        "🍭"@,
        "📨"@,
        "📫"@,
        "▶️"@,
        "🌀"@,
        "🍀"@,
        "🔵"@,
        "⚪️"@,
        "💬"@,
        "😎"@,
        "❇️"@,
        "🔸"@,
        "✉️"@,
        "📭"@,
        "🟤"@,
    ]
}

/// Emoji that opens the subject line.
pub fn pick_subject_emoji(issue_number: u32) -> (r: String)
    ensures
        r@ == pick(subject_emoji_table(), issue_number as nat),
{
    let r = match issue_number % 32 {
        1 => "🔶",
        2 => "📩",
        3 => "🟢",
        4 => "📧",
        5 => "🔺",
        6 => "🟡",
        7 => "🧐",
        8 => "💾",
        9 => "🔷",
        10 => "📋",
        11 => "🟣",
        12 => "🚩",
        13 => "🔴",
        14 => "🧶",
        15 => "🤓",
        16 => "✳️",
        17 => "🟠",
        18 => "🍭",
        19 => "📨",
        20 => "📫",
        21 => "▶️",
        22 => "🌀",
        23 => "🍀",
        24 => "🔵",
        25 => "⚪️",
        26 => "💬",
        27 => "😎",
        28 => "❇️",
        29 => "🔸",
        30 => "✉️",
        31 => "📭",
        _ => "🟤",
    };
    String::from_str(r)
}

} // verus!
