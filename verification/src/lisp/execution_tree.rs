//! The execution tree of a program: its syntax tree with every token read as
//! the object it stands for.

use crate::error::EmptyEscapeSequence;
use crate::error::EmptyStringDetected;
use crate::error::ErrorModel;
use crate::error::InvalidEscapeSequence;
use crate::error::LispError;
use crate::error::MultipleCharactersInSingleQuotes;
use crate::error::NoCharacterInSingleQuotes;
use crate::error::NoClosingDoubleQuoteInExecutionTree;
use crate::error::NoClosingSingleQuoteInExecutionTree;
use crate::error::NumericTokenCannotBeParsed;
use crate::lisp::abstract_syntax_tree::AbstractSyntaxTree;
use crate::lisp::abstract_syntax_tree_node::AbstractSyntaxTreeNode;
use crate::lisp::abstract_syntax_tree_object::AbstractSyntaxTreeObject;
use crate::lisp::execution_tree_node::ExecutionTreeNode;
use crate::lisp::execution_tree_object::ExecutionTreeObject;
use crate::lisp::literal;
use crate::lisp::literal::NumberKind;
use crate::lisp::object_model::ObjectModel;
use crate::lisp::syntax_model::SyntaxModel;
use crate::string::decimal::digit;
use crate::string::decimal::parse_integer;
use crate::string::fraction::fraction_text;
use crate::string::text::contains;
use crate::string::text::ends_with;
use crate::string::text::first_chars;
use crate::string::text::from_chars;
use crate::string::text::spells;
use crate::string::text::to_chars;
use vstd::prelude::*;
use vstd::string::StrSliceExecFns;
use vstd::string::StringExecFns;

verus! {

/// What came of reading a token or an object, as plain values.
pub open spec fn outcome(result: Result<ExecutionTreeObject, LispError>) -> Result<
    ObjectModel,
    ErrorModel,
> {
    match result {
        Ok(object) => Ok(object@),
        Err(error) => Err(error@),
    }
}

/// What came of reading a text, as plain values.
pub open spec fn text_outcome(result: Result<String, LispError>) -> Result<Seq<char>, ErrorModel> {
    match result {
        Ok(text) => Ok(text@),
        Err(error) => Err(error@),
    }
}

/// The objects that the objects of a group stand for, or the failure of the
/// first token, from left to right and groups before what follows them, that
/// stands for none.
pub open spec fn lower(group: Seq<SyntaxModel>) -> Result<Seq<ObjectModel>, ErrorModel>
    decreases group, 1nat,
{
    if group.len() == 0 {
        Ok(Seq::empty())
    } else {
        match lower(group.drop_last()) {
            Ok(objects) => match lower_object(group.last()) {
                Ok(object) => Ok(objects.push(object)),
                Err(error) => Err(error),
            },
            Err(error) => Err(error),
        }
    }
}

/// The object that an object of the syntax tree stands for.
pub open spec fn lower_object(object: SyntaxModel) -> Result<ObjectModel, ErrorModel>
    decreases object, 0nat,
{
    match object {
        SyntaxModel::Node(group) => match lower(group) {
            Ok(objects) => Ok(ObjectModel::Node(objects)),
            Err(error) => Err(error),
        },
        SyntaxModel::String(token) => literal::classify(token),
    }
}

impl NumberKind {
    fn name_str(self) -> (text: &'static str)
        ensures
            text@ == self.name(),
    {
        match self {
            NumberKind::F32 => ExecutionTreeObject::f32_str(),
            NumberKind::F64 => ExecutionTreeObject::f64_str(),
            NumberKind::I8 => ExecutionTreeObject::i8_str(),
            NumberKind::I16 => ExecutionTreeObject::i16_str(),
            NumberKind::I32 => ExecutionTreeObject::i32_str(),
            NumberKind::I64 => ExecutionTreeObject::i64_str(),
            NumberKind::ISize => ExecutionTreeObject::isize_str(),
            NumberKind::U8 => ExecutionTreeObject::u8_str(),
            NumberKind::U16 => ExecutionTreeObject::u16_str(),
            NumberKind::U32 => ExecutionTreeObject::u32_str(),
            NumberKind::U64 => ExecutionTreeObject::u64_str(),
            NumberKind::USize => ExecutionTreeObject::usize_str(),
        }
    }

    fn between(self) -> (bounds: (bool, i128, i128))
        ensures
            bounds.0 == self.signed(),
            bounds.1 == self.least(),
            bounds.2 == self.greatest(),
            -0x1_0000_0000_0000_0000 <= bounds.1 <= 0 <= bounds.2 <= 0x1_0000_0000_0000_0000,
    {
        match self {
            NumberKind::F32 | NumberKind::F64 => (false, 0, 0),
            NumberKind::I8 => (true, i8::MIN as i128, i8::MAX as i128),
            NumberKind::I16 => (true, i16::MIN as i128, i16::MAX as i128),
            NumberKind::I32 => (true, i32::MIN as i128, i32::MAX as i128),
            NumberKind::I64 => (true, i64::MIN as i128, i64::MAX as i128),
            NumberKind::ISize => (true, isize::MIN as i128, isize::MAX as i128),
            NumberKind::U8 => (false, 0, u8::MAX as i128),
            NumberKind::U16 => (false, 0, u16::MAX as i128),
            NumberKind::U32 => (false, 0, u32::MAX as i128),
            NumberKind::U64 => (false, 0, u64::MAX as i128),
            NumberKind::USize => (false, 0, usize::MAX as i128),
        }
    }

    fn object(self, value: i128) -> (object: ExecutionTreeObject)
        requires
            !self.has_fraction(),
        ensures
            object@ == self.whole(value as int),
    {
        match self {
            NumberKind::I8 => ExecutionTreeObject::I8(value as i8),
            NumberKind::I16 => ExecutionTreeObject::I16(value as i16),
            NumberKind::I32 => ExecutionTreeObject::I32(value as i32),
            NumberKind::I64 => ExecutionTreeObject::I64(value as i64),
            NumberKind::ISize => ExecutionTreeObject::ISize(value as isize),
            NumberKind::U8 => ExecutionTreeObject::U8(value as u8),
            NumberKind::U16 => ExecutionTreeObject::U16(value as u16),
            NumberKind::U32 => ExecutionTreeObject::U32(value as u32),
            NumberKind::U64 => ExecutionTreeObject::U64(value as u64),
            NumberKind::USize => ExecutionTreeObject::USize(value as usize),
            NumberKind::F32 | NumberKind::F64 => ExecutionTreeObject::Bool(false),
        }
    }
}

/// The execution tree of a program.
pub struct ExecutionTree {
    root: ExecutionTreeNode,
}

impl View for ExecutionTree {
    type V = Seq<ObjectModel>;

    closed spec fn view(&self) -> Seq<ObjectModel> {
        self.root@
    }
}

impl ExecutionTree {
    /// Reads every token of `syntax_tree` as the object it stands for.
    pub fn new(syntax_tree: &AbstractSyntaxTree) -> (result: Result<Self, LispError>)
        ensures
            match lower(syntax_tree@) {
                Ok(objects) => result matches Ok(tree) && tree@ == objects,
                Err(error) => result matches Err(failure) && failure@ == error,
            },
    {
        let abstract_root = syntax_tree.get_root();
        match Self::visit_node(abstract_root) {
            Ok(root) => Ok(ExecutionTree { root }),
            Err(error) => Err(error),
        }
    }

    pub fn get_root(&self) -> (root: &ExecutionTreeNode)
        ensures
            root@ == self@,
    {
        &self.root
    }

    pub fn into_root(self) -> (root: ExecutionTreeNode)
        ensures
            root@ == self@,
    {
        self.root
    }

    /// Replaces each escape sequence of `string` by the character it stands for.
    pub fn convert_escape_sequences(string: &str) -> (result: Result<String, LispError>)
        ensures
            text_outcome(result) == literal::unescape(string@),
    {
        let characters = to_chars(string);
        let mut converted = String::new();
        let mut index: usize = 0;
        proof {
            assert(string@.skip(0) =~= string@);
            assert(forall|text: Seq<char>| Seq::<char>::empty() + text =~= text);
        }
        while index < characters.len()
            invariant
                index <= characters.len(),
                characters@ == string@,
                literal::unescape(string@) == literal::after(
                    converted@,
                    literal::unescape(string@.skip(index as int)),
                ),
            decreases characters.len() - index,
        {
            let ghost rest = string@.skip(index as int);
            let ghost before = converted@;
            let character = characters[index];
            assert(rest[0] == character);
            let char_to_push = if character == '\\' {
                if index + 1 < characters.len() {
                    let escaped_character = characters[index + 1];
                    assert(rest[1] == escaped_character);
                    index += 1;
                    match escaped_character {
                        'n' => '\n',
                        'r' => '\r',
                        't' => '\t',
                        '\\' => '\\',
                        '0' => '\0',
                        escaped_character => {
                            return Err(
                                LispError::InvalidEscapeSequence(
                                    InvalidEscapeSequence::new(escaped_character),
                                ),
                            );
                        },
                    }
                } else {
                    return Err(LispError::EmptyEscapeSequence(EmptyEscapeSequence::new()));
                }
            } else {
                character
            };
            converted.push(char_to_push);
            index += 1;
            proof {
                let left = string@.skip(index as int);
                assert(left =~= if character == '\\' {
                    rest.skip(2)
                } else {
                    rest.skip(1)
                });
                assert(literal::unescape(rest) == literal::after(
                    seq![char_to_push],
                    literal::unescape(left),
                ));
                assert(forall|text: Seq<char>| before + (seq![char_to_push] + text) =~= before.push(char_to_push) + text);
            }
        }
        proof {
            assert(string@.skip(index as int) =~= Seq::<char>::empty());
            assert(converted@ + Seq::<char>::empty() =~= converted@);
        }
        Ok(converted)
    }

    fn visit_node(current_node: &AbstractSyntaxTreeNode) -> (result: Result<
        ExecutionTreeNode,
        LispError,
    >)
        ensures
            match lower(current_node@) {
                Ok(objects) => result matches Ok(node) && node@ == objects,
                Err(error) => result matches Err(failure) && failure@ == error,
            },
        decreases current_node@,
    {
        let mut execution_objects: Vec<ExecutionTreeObject> = Vec::new();
        let objects = current_node.get_objects();
        let mut index: usize = 0;
        proof {
            assert(current_node@.take(0) =~= Seq::<SyntaxModel>::empty());
            assert(crate::lisp::execution_tree_node::models(execution_objects@) =~= Seq::<
                ObjectModel,
            >::empty());
        }
        while index < objects.len()
            invariant
                index <= objects.len(),
                crate::lisp::abstract_syntax_tree_node::syntax_models(objects@) == current_node@,
                lower(current_node@.take(index as int)) == Ok::<Seq<ObjectModel>, ErrorModel>(
                    crate::lisp::execution_tree_node::models(execution_objects@),
                ),
            decreases objects.len() - index,
        {
            let ghost before = current_node@.take(index as int);
            let ghost longer = current_node@.take(index + 1);
            proof {
                assert(longer.drop_last() =~= before);
                assert(longer.last() == objects@[index as int]@);
                assert(lower(longer) == match lower_object(longer.last()) {
                    Ok(object) => Ok::<Seq<ObjectModel>, ErrorModel>(
                        crate::lisp::execution_tree_node::models(execution_objects@).push(object),
                    ),
                    Err(error) => Err(error),
                });
                lemma_lower_failure_stays(current_node@, index + 1);
            }
            let ghost models_before = crate::lisp::execution_tree_node::models(execution_objects@);
            match &objects[index] {
                AbstractSyntaxTreeObject::Node(inner_node) => {
                    proof {
                        let element = current_node@[index as int];
                        assert(element == SyntaxModel::Node(inner_node@));
                        assert(decreases_to!(current_node@ => element));
                        assert(decreases_to!(element => element->Node_0));
                    }
                    let new_node = match Self::visit_node(inner_node) {
                        Ok(new_node) => new_node,
                        Err(error) => {
                            return Err(error);
                        },
                    };
                    let new_object = ExecutionTreeObject::Node(new_node);
                    execution_objects.push(new_object);
                },
                AbstractSyntaxTreeObject::String(string) => {
                    let new_object = match Self::visit_string(string) {
                        Ok(new_object) => new_object,
                        Err(error) => {
                            return Err(error);
                        },
                    };
                    execution_objects.push(new_object);
                },
            }
            proof {
                assert(crate::lisp::execution_tree_node::models(execution_objects@)
                    =~= models_before.push(execution_objects@.last()@));
            }
            index += 1;
        }
        proof {
            assert(current_node@.take(index as int) =~= current_node@);
        }
        Ok(ExecutionTreeNode::new(execution_objects))
    }

    /// Reads `string` as the object it stands for.
    pub fn visit_string(string: &str) -> (result: Result<ExecutionTreeObject, LispError>)
        ensures
            outcome(result) == literal::classify(string@),
    {
        let characters = to_chars(string);
        proof {
            reveal_strlit("isize");
            reveal_strlit("usize");
            reveal_strlit("f32");
            reveal_strlit("f64");
            reveal_strlit("i16");
            reveal_strlit("i32");
            reveal_strlit("i64");
            reveal_strlit("u16");
            reveal_strlit("u32");
            reveal_strlit("u64");
            reveal_strlit("i8");
            reveal_strlit("u8");
        }
        if spells(&characters, "true") {
            return Ok(ExecutionTreeObject::Bool(true));
        }
        if spells(&characters, "false") {
            return Ok(ExecutionTreeObject::Bool(false));
        }
        let char_len = characters.len();
        if char_len == 0 {
            return Err(
                LispError::EmptyStringDetected(EmptyStringDetected::new(String::from_str(string))),
            );
        }
        let first_char = characters[0];
        let last_char = characters[char_len - 1];
        if digit(first_char) || (first_char == '-' && char_len > 1) || (first_char == '+'
            && char_len > 1) {
            if char_len > 5 {
                Self::visit_six_char_number_string(string, &characters)
            } else if char_len > 3 {
                Self::visit_four_char_number_string(string, &characters)
            } else if char_len > 2 {
                Self::visit_three_char_number_string(string, &characters)
            } else {
                Self::visit_two_char_number_string(string, &characters)
            }
        } else {
            match first_char {
                '"' => {
                    if char_len < 2 || last_char != '"' {
                        Err(
                            LispError::NoClosingDoubleQuoteInExecutionTree(
                                NoClosingDoubleQuoteInExecutionTree::new(String::from_str(string)),
                            ),
                        )
                    } else {
                        match Self::convert_escape_sequences(
                            string.substring_char(1, char_len - 1),
                        ) {
                            Ok(text) => Ok(ExecutionTreeObject::String(text)),
                            Err(error) => Err(error),
                        }
                    }
                },
                '\'' => {
                    if char_len < 3 {
                        Err(
                            LispError::NoCharacterInSingleQuotes(
                                NoCharacterInSingleQuotes::new(String::from_str(string)),
                            ),
                        )
                    } else if last_char != '\'' {
                        Err(
                            LispError::NoClosingSingleQuoteInExecutionTree(
                                NoClosingSingleQuoteInExecutionTree::new(String::from_str(string)),
                            ),
                        )
                    } else {
                        match Self::convert_escape_sequences(
                            string.substring_char(1, char_len - 1),
                        ) {
                            Ok(text) => {
                                if text.as_str().unicode_len() != 1 {
                                    Err(
                                        LispError::MultipleCharactersInSingleQuotes(
                                            MultipleCharactersInSingleQuotes::new(text),
                                        ),
                                    )
                                } else {
                                    Ok(ExecutionTreeObject::Char(text.as_str().get_char(0)))
                                }
                            },
                            Err(error) => Err(error),
                        }
                    }
                },
                _ => Ok(ExecutionTreeObject::Symbol(String::from_str(string))),
            }
        }
    }

    /// Reads the first `literal` characters of a token as a number of kind `kind`.
    fn visit_number_string(
        string: &str,
        characters: &Vec<char>,
        literal: usize,
        kind: NumberKind,
    ) -> (result: Result<ExecutionTreeObject, LispError>)
        requires
            characters@ == string@,
            literal <= characters.len(),
        ensures
            outcome(result) == literal::number(string@, string@.take(literal as int), kind),
    {
        match kind {
            NumberKind::F32 => {
                if fraction_text(&first_chars(characters, literal)) {
                    return Ok(ExecutionTreeObject::F32(from_chars(characters, 0, literal)));
                }
            },
            NumberKind::F64 => {
                if fraction_text(&first_chars(characters, literal)) {
                    return Ok(ExecutionTreeObject::F64(from_chars(characters, 0, literal)));
                }
            },
            _ => {
                let (signed, least, greatest) = kind.between();
                match parse_integer(characters, literal, signed, least, greatest) {
                    Some(value) => {
                        return Ok(kind.object(value));
                    },
                    None => {},
                }
            },
        }
        Err(
            LispError::NumericTokenCannotBeParsed(
                NumericTokenCannotBeParsed::new(
                    String::from_str(kind.name_str()),
                    String::from_str(string),
                ),
            ),
        )
    }

    fn visit_six_char_number_string(string: &str, characters: &Vec<char>) -> (result: Result<
        ExecutionTreeObject,
        LispError,
    >)
        requires
            characters@ == string@,
            characters.len() > 5,
        ensures
            outcome(result) == literal::classify_number(string@, 5),
    {
        proof {
            reveal_strlit("isize");
            reveal_strlit("usize");
        }
        let literal: usize = characters.len() - 5;
        if ends_with(characters, "isize") {
            Self::visit_number_string(string, characters, literal, NumberKind::ISize)
        } else if ends_with(characters, "usize") {
            Self::visit_number_string(string, characters, literal, NumberKind::USize)
        } else {
            Self::visit_four_char_number_string(string, characters)
        }
    }

    fn visit_four_char_number_string(string: &str, characters: &Vec<char>) -> (result: Result<
        ExecutionTreeObject,
        LispError,
    >)
        requires
            characters@ == string@,
            characters.len() > 3,
        ensures
            outcome(result) == literal::classify_number(string@, 3),
    {
        proof {
            reveal_strlit("f32");
            reveal_strlit("f64");
            reveal_strlit("i16");
            reveal_strlit("i32");
            reveal_strlit("i64");
            reveal_strlit("u16");
            reveal_strlit("u32");
            reveal_strlit("u64");
        }
        let literal: usize = characters.len() - 3;
        if ends_with(characters, "f32") {
            Self::visit_number_string(string, characters, literal, NumberKind::F32)
        } else if ends_with(characters, "f64") {
            Self::visit_number_string(string, characters, literal, NumberKind::F64)
        } else if ends_with(characters, "i16") {
            Self::visit_number_string(string, characters, literal, NumberKind::I16)
        } else if ends_with(characters, "i32") {
            Self::visit_number_string(string, characters, literal, NumberKind::I32)
        } else if ends_with(characters, "i64") {
            Self::visit_number_string(string, characters, literal, NumberKind::I64)
        } else if ends_with(characters, "u16") {
            Self::visit_number_string(string, characters, literal, NumberKind::U16)
        } else if ends_with(characters, "u32") {
            Self::visit_number_string(string, characters, literal, NumberKind::U32)
        } else if ends_with(characters, "u64") {
            Self::visit_number_string(string, characters, literal, NumberKind::U64)
        } else {
            Self::visit_three_char_number_string(string, characters)
        }
    }

    fn visit_three_char_number_string(string: &str, characters: &Vec<char>) -> (result: Result<
        ExecutionTreeObject,
        LispError,
    >)
        requires
            characters@ == string@,
            characters.len() > 2,
        ensures
            outcome(result) == literal::classify_number(string@, 2),
    {
        proof {
            reveal_strlit("i8");
            reveal_strlit("u8");
        }
        let literal: usize = characters.len() - 2;
        if ends_with(characters, "i8") {
            Self::visit_number_string(string, characters, literal, NumberKind::I8)
        } else if ends_with(characters, "u8") {
            Self::visit_number_string(string, characters, literal, NumberKind::U8)
        } else {
            Self::visit_two_char_number_string(string, characters)
        }
    }

    fn visit_two_char_number_string(string: &str, characters: &Vec<char>) -> (result: Result<
        ExecutionTreeObject,
        LispError,
    >)
        requires
            characters@ == string@,
        ensures
            outcome(result) == literal::classify_number(string@, 0),
    {
        proof {
            assert(string@.take(string@.len() as int) =~= string@);
        }
        let does_contain_dot = contains(characters, '.');
        if does_contain_dot {
            Self::visit_number_string(string, characters, characters.len(), NumberKind::F64)
        } else {
            Self::visit_number_string(string, characters, characters.len(), NumberKind::I32)
        }
    }
}

/// Where the objects of the beginning of a group stand for none, the whole group does not.
pub proof fn lemma_lower_failure_stays(group: Seq<SyntaxModel>, count: int)
    requires
        0 <= count <= group.len(),
    ensures
        lower(group.take(count)) matches Err(error) ==> lower(group) == Err::<
            Seq<ObjectModel>,
            ErrorModel,
        >(error),
    decreases group.len() - count,
{
    if count < group.len() {
        lemma_lower_failure_stays(group, count + 1);
        assert(group.take(count + 1).drop_last() =~= group.take(count));
    } else {
        assert(group.take(count) =~= group);
    }
}

} // verus!
