use rhythm::syntax::AttributeCommand;
use rhythm::syntax::RawUseTree;
use rhythm::syntax::UseGroup;
use rhythm::syntax::UseName;
use rhythm::syntax::UsePath;
use rhythm::syntax::UseTree;
use rhythm::syntax::UseTreeError;

fn raw_use_tree(tree: &syn::UseTree) -> RawUseTree {
    match tree {
        syn::UseTree::Glob(_) => RawUseTree::Glob,
        syn::UseTree::Name(name) => RawUseTree::Name(format!("{}", name.ident)),
        syn::UseTree::Path(path) => {
            RawUseTree::Path(format!("{}", path.ident), Box::new(raw_use_tree(&path.tree)))
        }
        syn::UseTree::Group(group) => {
            RawUseTree::Group(group.items.iter().map(raw_use_tree).collect())
        }
        syn::UseTree::Rename(rename) => {
            RawUseTree::Rename(format!("{}", rename.ident), format!("{}", rename.rename))
        }
    }
}

fn parse_use_tree(source: &str) -> Result<UseTree, UseTreeError> {
    let item_use = syn::parse_str::<syn::ItemUse>(source).unwrap();
    UseTree::from(&raw_use_tree(&item_use.tree))
}

#[test]
fn use_parse_test() {
    let parsed =
        parse_use_tree("use rhythmc::core::{thing1, module::{thing2, thing3}, all::*};").unwrap();
    let tree = UseTree::Path(UsePath {
        path: "rhythmc".to_owned(),
        next: Box::new(UseTree::Path(UsePath {
            path: "core".to_owned(),
            next: Box::new(UseTree::Group(UseGroup {
                group: vec![
                    Box::new(UseTree::Name(UseName {
                        name: "thing1".to_owned(),
                    })),
                    Box::new(UseTree::Path(UsePath {
                        path: "module".to_owned(),
                        next: Box::new(UseTree::Group(UseGroup {
                            group: vec![
                                Box::new(UseTree::Name(UseName {
                                    name: "thing2".to_owned(),
                                })),
                                Box::new(UseTree::Name(UseName {
                                    name: "thing3".to_owned(),
                                })),
                            ],
                        })),
                    })),
                    Box::new(UseTree::Path(UsePath {
                        path: "all".to_owned(),
                        next: Box::new(UseTree::All),
                    })),
                ],
            })),
        })),
    });
    assert_eq!(parsed, tree);
    // Renaming not supported
    parse_use_tree("use rhythmc::core::{thing1, module::{thing2, thing3}, xyz as abc};")
        .unwrap_err();
}

#[test]
fn use_tree_rename_error_test() {
    let raw = RawUseTree::Group(vec![
        RawUseTree::Name("fine".to_owned()),
        RawUseTree::Rename("xyz".to_owned(), "abc".to_owned()),
    ]);
    assert_eq!(UseTree::from(&raw), Err(UseTreeError::RenameUnsupported));
}

#[test]
fn attribute_command_ignore_test() {
    assert!(AttributeCommand::Ignore.ignore());
    assert!(!AttributeCommand::Absent.ignore());
}

struct ParsedShaderModule(rhythm::syntax::ShaderModule);

impl syn::parse::Parse for ParsedShaderModule {
    fn parse(input: syn::parse::ParseStream) -> syn::Result<Self> {
        let mut result = rhythm::syntax::ShaderModule {
            external: Vec::new(),
        };
        while !input.is_empty() {
            let lookahead = input.lookahead1();
            let command = if lookahead.peek(syn::token::Pound) {
                let attrs = input.call(syn::Attribute::parse_outer)?;
                let ignore = attrs.iter().any(|attr| {
                    let segments: Vec<String> = attr
                        .path
                        .segments
                        .iter()
                        .map(|segment| segment.ident.to_string())
                        .collect();
                    rhythm::utils::is_path(
                        &segments,
                        &vec!["rhythmc".to_owned(), "ignore".to_owned()],
                    )
                });
                if ignore {
                    AttributeCommand::Ignore
                } else {
                    AttributeCommand::Absent
                }
            } else {
                AttributeCommand::Absent
            };
            let lookahead = input.lookahead1();
            if lookahead.peek(syn::token::Use) {
                if command.ignore() {
                    input.parse::<syn::ItemUse>()?;
                } else {
                    let item_use: syn::ItemUse = input.parse()?;
                    match UseTree::from(&raw_use_tree(&item_use.tree)) {
                        Ok(tree) => result.external.push(tree),
                        Err(_) => {
                            return Err(input.error("renaming modules not supported"));
                        }
                    }
                }
            } else {
                return Err(input.error("unexpected token received"));
            }
        }
        Ok(ParsedShaderModule(result))
    }
}

#[test]
fn ignore_attribute_command_test() {
    let shader = syn::parse_str::<ParsedShaderModule>(
        "
      #[rhythmc::ignore]
      use rhythmc::core::{thing1, module::{thing2, thing3}, thing4};
    ",
    )
    .unwrap();
    assert!(shader.0.external.is_empty());
}
