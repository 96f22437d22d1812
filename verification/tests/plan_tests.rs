use scaffolder::plan::{next_index, scaffold_ops, executed_prefix_len, OpKind, Operation};

fn plan() -> Vec<Operation> {
    scaffold_ops("react-app", false)
}

fn dir_path(op: &Operation) -> &str {
    match &op.kind {
        OpKind::EnsureDir { path } => path,
        _ => panic!("expected a directory operation"),
    }
}

fn file_parts(op: &Operation) -> (&str, &str) {
    match &op.kind {
        OpKind::WriteFile { path, content } => (path, content),
        _ => panic!("expected a file operation"),
    }
}

#[test]
fn plan_has_fifteen_operations_in_order() {
    let ops = plan();
    assert_eq!(ops.len(), 15);
    assert!(matches!(ops[0].kind, OpKind::EnsureDir { .. }));
    for i in 1..=6 {
        assert!(matches!(ops[i].kind, OpKind::RunStep { .. }));
    }
    for i in 7..=9 {
        assert!(matches!(ops[i].kind, OpKind::EnsureDir { .. }));
    }
    for i in 10..=13 {
        assert!(matches!(ops[i].kind, OpKind::WriteFile { .. }));
    }
    assert!(matches!(ops[14].kind, OpKind::PatchManifest { .. }));
}

#[test]
fn plan_provisions_root_and_subdirectories() {
    let ops = plan();
    assert_eq!(dir_path(&ops[0]), "react-app");
    assert_eq!(dir_path(&ops[7]), "react-app/public");
    assert_eq!(dir_path(&ops[8]), "react-app/src");
    assert_eq!(dir_path(&ops[9]), "react-app/src/components");
}

#[test]
fn plan_install_steps_invoke_npm_in_declared_order() {
    let ops = plan();
    let expected: [(&[&str], &str); 6] = [
        (&["init", "-y"], "[*] initializing npm project."),
        (&["install", "react", "react-dom"], "[*] installing react & react-dom"),
        (&["install", "webpack", "--save-dev"], "[*] installing webpack"),
        (
            &["install", "webpack-cli", "webpack-dev-server", "--save-dev"],
            "[*] installing webpack cli & dev-server",
        ),
        (
            &[
                "install",
                "@babel/core",
                "@babel/preset-react",
                "@babel/preset-env",
                "babel-loader",
                "--save-dev",
            ],
            "[*] installing babel & babel-components",
        ),
        (
            &["install", "html-webpack-plugin", "--save-dev"],
            "[*] installing html-webpack-plugin",
        ),
    ];
    for i in 0..6 {
        match &ops[1 + i].kind {
            OpKind::RunStep { step, cwd } => {
                assert_eq!(step.program, "npm");
                let args: Vec<&str> = step.args.iter().map(|a| a.as_str()).collect();
                assert_eq!(args, expected[i].0);
                assert_eq!(step.label, expected[i].1);
                // every step runs inside the provisioned root
                assert_eq!(cwd, "react-app");
            },
            _ => panic!("expected an install step"),
        }
    }
}

#[test]
fn plan_writes_the_four_templates_byte_for_byte() {
    let ops = plan();
    let (path, content) = file_parts(&ops[10]);
    assert_eq!(path, "react-app/webpack.config.js");
    assert_eq!(content, WEBPACK_CONFIG);
    let (path, content) = file_parts(&ops[11]);
    assert_eq!(path, "react-app/src/index.js");
    assert_eq!(content, INDEX_JS);
    let (path, content) = file_parts(&ops[12]);
    assert_eq!(path, "react-app/src/components/App.js");
    assert_eq!(content, APP_COMPONENT);
    let (path, content) = file_parts(&ops[13]);
    assert_eq!(path, "react-app/public/index.html");
    assert_eq!(content, INDEX_HTML);
}

#[test]
fn plan_patch_operation_carries_the_two_commands() {
    let ops = plan();
    match &ops[14].kind {
        OpKind::PatchManifest { path, build_cmd, start_cmd } => {
            assert_eq!(path, "react-app/package.json");
            assert_eq!(build_cmd, "webpack --mode production");
            assert_eq!(start_cmd, "webpack-dev-server --mode development --open --hot");
        },
        _ => panic!("expected the patch operation"),
    }
}

#[test]
fn only_install_steps_continue_on_error_by_default() {
    let ops = plan();
    for (i, op) in ops.iter().enumerate() {
        let is_step = matches!(op.kind, OpKind::RunStep { .. });
        let is_patch = matches!(op.kind, OpKind::PatchManifest { .. });
        assert_eq!(op.continue_on_error, is_step || is_patch, "operation {}", i);
    }
    let strict = scaffold_ops("react-app", true);
    assert!(!strict[14].continue_on_error);
}

#[test]
fn next_index_walks_the_plan_and_stops_on_fatal_failures() {
    let ops = plan();
    assert_eq!(next_index(&ops, 0, false), Some(1));
    // a failing install step is not fatal
    assert_eq!(next_index(&ops, 1, true), Some(2));
    // a failing directory is fatal
    assert_eq!(next_index(&ops, 7, true), None);
    // a failing file is fatal
    assert_eq!(next_index(&ops, 10, true), None);
    // the last operation has no successor
    assert_eq!(next_index(&ops, 14, false), None);
}

#[test]
fn all_operations_run_when_nothing_fails() {
    let ops = plan();
    let failed = vec![false; ops.len()];
    assert_eq!(executed_prefix_len(&ops, &failed), 15);
}

#[test]
fn failing_install_steps_do_not_stop_the_pipeline() {
    let ops = plan();
    let mut failed = vec![false; ops.len()];
    for i in 1..=6 {
        failed[i] = true;
    }
    // every operation still runs: all directories and all four files
    assert_eq!(executed_prefix_len(&ops, &failed), 15);
}

#[test]
fn failing_directory_stops_everything_after_it() {
    let ops = plan();
    let mut failed = vec![false; ops.len()];
    failed[7] = true;
    assert_eq!(executed_prefix_len(&ops, &failed), 8);
}

#[test]
fn failing_file_stops_everything_after_it() {
    let ops = plan();
    let mut failed = vec![false; ops.len()];
    failed[12] = true;
    assert_eq!(executed_prefix_len(&ops, &failed), 13);
}

const WEBPACK_CONFIG: &str = r#"
const path = require('path')
const HTMLWebpackPlugin = require('html-webpack-plugin')

module.exports={
    entry: "./src/index.js",
    output: {
        path: path.join(__dirname,"/dist"),
        filename: "bundle.js"
    },
    plugins: [
        new HTMLWebpackPlugin({
            template: "./public/index.html"
        })
    ],
    module: {
        rules: [
            {
                test: /\.js$/,
                exclude: /node_modules/,
                use: {
                    loader: "babel-loader",
                    options: {
                        presets: ["@babel/preset-react", "@babel/preset-env"]
                    }
                }
            }
        ]
    },
    
} 
"#;

const INDEX_JS: &str = r#"
import React from "react";
import ReactDOM from "react-dom";
import App from "./components/App";

ReactDOM.render(<App/> , document.getElementById('root'))
"#;

const APP_COMPONENT: &str = r#"
import React , {Component} from "react";

class App extends Component {
    render(){
        return(
            <div>
                Hello World!
            </div>        
        )
    }
}
export default App;
"#;

const INDEX_HTML: &str = r#"
<!DOCTYPE html>
<html lang="en">
    <head>
        <meta charset="UTF-8">
        <meta name="viewport" content="width=device-width, initial-scale=1.0">
        <title>Document</title>
    </head>
    <body>
        <div id="root"></div>
    </body>
</html>
"#;
