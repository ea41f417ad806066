use p2p_chat::prompt::{KeyInput, Prompt};

fn type_text(prompt: &mut Prompt, text: &str) {
    for c in text.chars() {
        assert_eq!(prompt.handle_input(&KeyInput::Char(c)), None);
    }
}

#[test]
fn enter_hands_out_line() {
    let mut prompt = Prompt::new();
    type_text(&mut prompt, "hello");
    assert_eq!(prompt.handle_input(&KeyInput::Char('\n')), Some(String::from("hello")));
    assert_eq!(prompt.handle_input(&KeyInput::Char('\n')), None);
}

#[test]
fn editing_keys() {
    let mut prompt = Prompt::default();
    type_text(&mut prompt, "abc");
    prompt.handle_input(&KeyInput::Left);
    prompt.handle_input(&KeyInput::Backspace);
    assert_eq!(prompt.handle_input(&KeyInput::Char('X')), None);
    prompt.handle_input(&KeyInput::Left);
    prompt.handle_input(&KeyInput::Left);
    prompt.handle_input(&KeyInput::Delete);
    prompt.handle_input(&KeyInput::Right);
    prompt.handle_input(&KeyInput::Right);
    prompt.handle_input(&KeyInput::Right);
    prompt.handle_input(&KeyInput::Other);
    type_text(&mut prompt, "!");
    assert_eq!(prompt.finalize(), Some(String::from("Xc!")));
}

#[test]
fn backspace_at_start_does_nothing() {
    let mut prompt = Prompt::new();
    type_text(&mut prompt, "ab");
    prompt.left();
    prompt.left();
    prompt.left();
    prompt.back();
    assert_eq!(prompt.finalize(), Some(String::from("ab")));
}
