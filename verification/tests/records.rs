use recipe_final_exercise::model::{
    Category, Comment, Ingredient, Note, ObjectId, Recipe, Token, Tool, User,
};

#[test]
fn blank_ingredient_and_tool_are_empty() {
    let ingredient = Ingredient::default();
    assert_eq!(ingredient.name, "");
    assert_eq!(ingredient.icon_url, "");
    assert_eq!(ingredient.quantity, "");
    let tool = Tool::default();
    assert_eq!(tool.name, "");
    assert_eq!(tool.icon_url, "");
}

#[test]
fn a_cloned_user_is_the_same_all_the_way_down() {
    let reader = ObjectId { bytes: [7; 12] };
    let recipe = Recipe {
        name: "Soup".to_string(),
        instructions: vec!["Boil".to_string(), "Serve".to_string()],
        icon_url: "/icons/soup.png".to_string(),
        price_level: 2,
        healthy_level: 4,
        comment: vec![Comment {
            content: "Tasty".to_string(),
            date: 1_700_000_000_000,
            user: reader,
        }],
        notes: vec![Note {
            note: 5,
            user: reader,
        }],
        ingredients: vec![Ingredient {
            name: "Leek".to_string(),
            icon_url: "/icons/leek.png".to_string(),
            quantity: "2".to_string(),
        }],
        tools: vec![Tool {
            name: "Pot".to_string(),
            icon_url: "/icons/pot.png".to_string(),
        }],
        categories: vec![ObjectId { bytes: [1; 12] }, ObjectId { bytes: [2; 12] }],
    };
    let user = User {
        name: "alice".to_string(),
        password: "stored".to_string(),
        admin: true,
        tokens: vec![
            Token {
                token: "one".to_string(),
                expiration: 1,
            },
            Token {
                token: "two".to_string(),
                expiration: 2,
            },
        ],
        recipes: vec![recipe],
    };
    let copy = user.clone();
    assert_eq!(copy.name, "alice");
    assert_eq!(copy.password, "stored");
    assert!(copy.admin);
    assert_eq!(copy.tokens, user.tokens);
    assert_eq!(copy.recipes.len(), 1);
    let soup = &copy.recipes[0];
    assert_eq!(soup.name, "Soup");
    assert_eq!(soup.instructions, vec!["Boil".to_string(), "Serve".to_string()]);
    assert_eq!(soup.icon_url, "/icons/soup.png");
    assert_eq!(soup.price_level, 2);
    assert_eq!(soup.healthy_level, 4);
    assert_eq!(soup.comment.len(), 1);
    assert_eq!(soup.comment[0].content, "Tasty");
    assert_eq!(soup.comment[0].date, 1_700_000_000_000);
    assert_eq!(soup.comment[0].user.bytes, [7; 12]);
    assert_eq!(soup.notes.len(), 1);
    assert_eq!(soup.notes[0].note, 5);
    assert_eq!(soup.notes[0].user.bytes, [7; 12]);
    assert_eq!(soup.ingredients.len(), 1);
    assert_eq!(soup.ingredients[0].name, "Leek");
    assert_eq!(soup.ingredients[0].quantity, "2");
    assert_eq!(soup.tools.len(), 1);
    assert_eq!(soup.tools[0].name, "Pot");
    assert_eq!(soup.categories.len(), 2);
    assert_eq!(soup.categories[1].bytes, [2; 12]);
    assert_eq!(Category { name: "Soups".to_string() }.clone().name, "Soups");
}
