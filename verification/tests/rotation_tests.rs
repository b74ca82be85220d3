use fullstack_bulletin::rotation::{
    generate_closing_message, generate_closing_title, generate_extra_content_title,
    generate_greeting, generate_intro_closing, pick_subject_emoji,
};

#[test]
fn test_greeting_generation() {
    let greeting1 = generate_greeting(1);
    let greeting2 = generate_greeting(2);
    let greeting10 = generate_greeting(10);
    let greeting11 = generate_greeting(11);

    // Different issue numbers should generate different greetings (except for same modulo)
    assert_ne!(greeting1, greeting2);
    assert_eq!(greeting1, greeting11); // Both 1 and 11 have same modulo
    assert_eq!(greeting1, "Hey there"); // Issue 1
    assert_eq!(greeting2, "Heyo"); // Issue 2
    assert_eq!(greeting10, "Hello"); // Issue 10 (0 modulo)
}

#[test]
fn test_intro_closing_generation() {
    let intro1 = generate_intro_closing(1);
    let intro2 = generate_intro_closing(2);
    let intro10 = generate_intro_closing(10);
    let intro41 = generate_intro_closing(41);
    let intro42 = generate_intro_closing(42);

    // Different issue numbers should generate different intro closings (except for same modulo 41)
    assert_ne!(intro1, intro2);
    assert_ne!(intro1, intro10);
    assert_eq!(intro1, intro42); // Both 1 and 42 have same modulo (42 % 41 = 1)
    assert_eq!(intro1, "Enjoy the journey ahead!"); // Issue 1
    assert_eq!(intro2, "Let's dive in and learn together!"); // Issue 2
    assert_eq!(intro10, "Make something you are proud of!"); // Issue 10
    assert_eq!(intro41, "Happy reading and coding!"); // Issue 41 (0 modulo - default)
}

#[test]
fn test_extra_content_title_generation() {
    let title1 = generate_extra_content_title(1);
    let title2 = generate_extra_content_title(2);
    let title10 = generate_extra_content_title(10);
    let title11 = generate_extra_content_title(11);

    // Different issue numbers should generate different titles (except for same modulo)
    assert_ne!(title1, title2);
    assert_eq!(title1, title11); // Both 1 and 11 have same modulo
    assert_eq!(title1, "You have to BELIEVE in the power of more content! 🙏"); // Issue 1
    assert_eq!(title10, "Hand-picked extras to keep your brain buzzing! ⚡");
    // Issue 10 (0 modulo)
}

#[test]
fn template_test_extra_content_title_generation() {
    let title1 = generate_extra_content_title(1);
    let title2 = generate_extra_content_title(2);
    let title10 = generate_extra_content_title(10);
    let title11 = generate_extra_content_title(11);

    assert_ne!(title1, title2);
    assert_eq!(title1, title11);
    assert_eq!(title1, "You have to BELIEVE in the power of more content! 🙏");
    assert_eq!(title10, "Hand-picked extras to keep your brain buzzing! ⚡");
}

#[test]
fn test_closing_title_generation() {
    let title1 = generate_closing_title(1);
    let title2 = generate_closing_title(2);
    let title10 = generate_closing_title(10);
    let title11 = generate_closing_title(11);

    // Different issue numbers should generate different titles (except for same modulo)
    assert_ne!(title1, title2);
    assert_eq!(title1, title11); // Both 1 and 11 have same modulo
    assert_eq!(title1, "That's a wrap! 🌯"); // Issue 1
    assert_eq!(title10, "That's all folks! 🐰"); // Issue 10 (0 modulo)
}

#[test]
fn test_closing_message_generation() {
    let message1 = generate_closing_message(1);
    let message2 = generate_closing_message(2);
    let message10 = generate_closing_message(10);
    let message11 = generate_closing_message(11);

    // Different issue numbers should generate different messages (except for same modulo)
    assert_ne!(message1, message2);
    assert_eq!(message1, message11); // Both 1 and 11 have same modulo
    assert!(message1.contains("Thanks for sticking around")); // Issue 1
    assert!(message10.contains("Thank you for getting to the end")); // Issue 10 (0 modulo)

    // All messages should encourage engagement
    assert!(message1.contains("reply"));
    assert!(message2.contains("Drop us a line"));
    assert!(message10.contains("reply"));
}

#[test]
fn test_subject_emoji_rotation() {
    // remainder 1 selects the first entry, remainder 0 the last
    assert_eq!(pick_subject_emoji(1), "🔶");
    assert_eq!(pick_subject_emoji(32), "🟤");
    assert_eq!(pick_subject_emoji(33), pick_subject_emoji(1));
    // issue 435: 435 % 32 == 19, so the 19th entry (position 18)
    assert_eq!(pick_subject_emoji(435), "📨");
}

#[test]
fn test_rotation_periodic_across_tables() {
    // adding the table size never changes the selection; the moduli differ
    // per table, so the same pair of issues may rotate apart elsewhere
    assert_eq!(generate_greeting(3), generate_greeting(13));
    assert_eq!(generate_closing_title(7), generate_closing_title(17));
    assert_eq!(generate_intro_closing(5), generate_intro_closing(46));
    assert_ne!(generate_intro_closing(5), generate_intro_closing(15));
}
