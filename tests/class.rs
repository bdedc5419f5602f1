use js_native::builder::{build, Builder, Prototype};
use js_native::class::{Binding, ClassLayout};
use js_native::error::{DukResult, ErrorKind};

/// A native callable: reads its arguments from and pushes its results onto
/// the stack, and may touch the instance data.
type Callable = Box<dyn Fn(&mut Vec<String>, &mut Vec<i64>) -> DukResult<i32>>;

type Heap = Binding<Callable, Vec<i64>>;

fn callable<F: Fn(&mut Vec<String>, &mut Vec<i64>) -> DukResult<i32> + 'static>(f: F) -> Callable {
    Box::new(f)
}

/// What the construction trampoline does on `new`.
fn construct(heap: &mut Heap, layout: &ClassLayout<usize>, stack: &mut Vec<String>) -> DukResult<usize> {
    let ctor = heap.check_out_constructor(layout.ctor)?;
    let mut instance: Vec<i64> = Vec::new();
    let (lent, outcome) = match ctor {
        Some(c) => {
            let outcome = c(stack, &mut instance);
            (Some((layout.ctor.unwrap(), c)), outcome)
        }
        None => (None, Ok(0)),
    };
    heap.finish_construct(lent, instance, outcome)
}

/// What the method trampoline does on a call.
fn call(heap: &mut Heap, method: usize, receiver: Option<usize>, stack: &mut Vec<String>) -> DukResult<i32> {
    let (m, mut d) = heap.check_out_call(method, receiver)?;
    let outcome = m(stack, &mut d);
    heap.check_in_call(method, receiver.unwrap(), m, d, outcome)
}

fn handle_of(layout: &ClassLayout<usize>, name: &str) -> usize {
    layout.methods.iter().find(|(n, _)| n == name).map(|(_, h)| *h).unwrap()
}

fn materialize(heap: &mut Heap, b: Builder<Callable, usize>) -> ClassLayout<usize> {
    match heap.push_class_builder(b) {
        Ok(layout) => layout,
        Err(_) => panic!("no layout"),
    }
}

#[test]
fn class_builder() {
    let mut heap: Heap = Binding::new();
    let mut b = build();
    b.method(
        "testMethodNoArg",
        callable(|ctx, _this| {
            ctx.push("Hello, World!".to_string());
            Ok(1)
        }),
    )
    .method("testMethodArg", callable(|_ctx, _this| Ok(0)));
    let layout = materialize(&mut heap, b);
    let mut stack = Vec::new();
    let out = construct(&mut heap, &layout, &mut stack).unwrap();
    let n = call(&mut heap, handle_of(&layout, "testMethodNoArg"), Some(out), &mut stack).unwrap();
    assert_eq!(n, 1);
    let greeting = stack.pop().unwrap();
    assert_eq!(greeting, "Hello, World!");
}

#[test]
fn lib_test() {
    let mut heap: Heap = Binding::new();
    let mut builder = build();
    builder.method(
        "greet",
        callable(|ctx, _this| {
            let name = ctx.pop().unwrap();
            ctx.push(format!("Hello {}", name));
            Ok(1)
        }),
    );
    builder.name("Greeter");
    let layout = materialize(&mut heap, builder);
    assert_eq!(layout.name.as_deref(), Some("Greeter"));
    let greet = handle_of(&layout, "greet");

    let mut stack = Vec::new();
    let greeter = construct(&mut heap, &layout, &mut stack).unwrap();
    stack.push("me".to_string());
    call(&mut heap, greet, Some(greeter), &mut stack).unwrap();
    let greeting = stack.pop().unwrap() + "!";
    assert_eq!(greeting, "Hello me!");

    let greeter = construct(&mut heap, &layout, &mut stack).unwrap();
    stack.push("eevee".to_string());
    call(&mut heap, greet, Some(greeter), &mut stack).unwrap();
    assert_eq!(stack.pop().unwrap(), "Hello eevee");
}

#[test]
fn console_test() {
    let mut heap: Heap = Binding::new();
    let mut builder = build();
    builder
        .method(
            "log",
            callable(|ctx, this| {
                let line = ctx.pop().unwrap_or_default();
                this.push(line.chars().count() as i64);
                Ok(1)
            }),
        )
        .method(
            "error",
            callable(|ctx, _this| match ctx.pop() {
                Some(_) => Ok(1),
                None => Err(ErrorKind::TypeError("error needs a string".to_string())),
            }),
        );
    builder.name("Console");
    let layout = materialize(&mut heap, builder);
    let mut stack = Vec::new();
    let console = construct(&mut heap, &layout, &mut stack).unwrap();
    let log = handle_of(&layout, "log");
    for _ in 0..10 {
        stack.push("大明在js里面调用了rust。很强".to_string());
        assert_eq!(call(&mut heap, log, Some(console), &mut stack), Ok(1));
    }
    let data = heap.get_instance(Some(console)).unwrap();
    assert_eq!(data.len(), 10);
    heap.put_instance(console, data);
    let failed = call(&mut heap, handle_of(&layout, "error"), Some(console), &mut stack);
    assert_eq!(failed.unwrap_err().message(), "error needs a string");
}

#[test]
fn macros_test() {
    let kinds = vec![
        ErrorKind::Error("e".to_string()),
        ErrorKind::TypeError("t".to_string()),
        ErrorKind::ReferenceError("r".to_string()),
        ErrorKind::ConstructorError("c".to_string()),
    ];
    let messages: Vec<String> = kinds.iter().map(|k| k.message()).collect();
    assert_eq!(messages, vec!["e", "t", "r", "c"]);
    assert!(kinds[2].is_reference_error());
    assert!(!kinds[0].is_reference_error());
}

#[test]
fn repeated_calls_keep_returning_the_value() {
    let mut heap: Heap = Binding::new();
    let mut b = build();
    b.method(
        "answer",
        callable(|ctx, this| {
            this.push(42);
            ctx.push("42".to_string());
            Ok(1)
        }),
    );
    let layout = materialize(&mut heap, b);
    let mut stack = Vec::new();
    let obj = construct(&mut heap, &layout, &mut stack).unwrap();
    let answer = handle_of(&layout, "answer");
    for _ in 0..1000 {
        assert_eq!(call(&mut heap, answer, Some(obj), &mut stack), Ok(1));
        assert_eq!(stack.pop().as_deref(), Some("42"));
    }
    let data = heap.get_instance(Some(obj)).unwrap();
    assert_eq!(data.len(), 1000);
    heap.put_instance(obj, data);
}

#[test]
fn super_link_follows_inherit() {
    let mut heap: Heap = Binding::new();
    let plain: Builder<Callable, usize> = build();
    let layout = materialize(&mut heap, plain);
    assert_eq!(layout.parent, None);

    let mut child: Builder<Callable, usize> = build();
    child.inherit(7);
    let layout = materialize(&mut heap, child);
    assert_eq!(layout.parent, Some(7));
}

#[test]
fn foreign_receiver_is_a_reference_error() {
    let mut heap: Heap = Binding::new();
    let mut b = build();
    b.method("get", callable(|_ctx, _this| Ok(1)));
    let layout = materialize(&mut heap, b);
    let get = handle_of(&layout, "get");
    let mut stack = Vec::new();

    let r = call(&mut heap, get, None, &mut stack);
    assert!(matches!(r, Err(ErrorKind::ReferenceError(_))));
    let r = call(&mut heap, get, Some(99), &mut stack);
    assert!(matches!(r, Err(ErrorKind::ReferenceError(_))));

    let obj = construct(&mut heap, &layout, &mut stack).unwrap();
    assert_eq!(call(&mut heap, get, Some(obj), &mut stack), Ok(1));
}

#[test]
fn failed_constructor_leaves_the_object_inert() {
    let mut heap: Heap = Binding::new();
    let mut b = build();
    b.constructor(callable(|_ctx, _this| Err(ErrorKind::Error("boom".to_string()))))
        .method("get", callable(|_ctx, _this| Ok(1)));
    let layout = materialize(&mut heap, b);
    let mut stack = Vec::new();
    let r = construct(&mut heap, &layout, &mut stack);
    match r {
        Err(ErrorKind::ConstructorError(msg)) => assert_eq!(msg, "ctor call failed: boom"),
        _ => panic!("the constructor should have failed"),
    }
    // The object received no instance handle.
    let r = call(&mut heap, handle_of(&layout, "get"), None, &mut stack);
    assert!(matches!(r, Err(ErrorKind::ReferenceError(_))));
    // The constructor went back to its slot and runs again.
    assert!(construct(&mut heap, &layout, &mut stack).is_err());
    assert!(heap.constructor_dtor(layout.ctor).is_some());
    assert!(heap.constructor_dtor(layout.ctor).is_none());
}

#[test]
fn constructor_fills_the_instance() {
    let mut heap: Heap = Binding::new();
    let mut b = build();
    b.constructor(callable(|_ctx, this| {
        this.push(5);
        Ok(0)
    }));
    let layout = materialize(&mut heap, b);
    let mut stack = Vec::new();
    let obj = construct(&mut heap, &layout, &mut stack).unwrap();
    assert_eq!(heap.get_instance(Some(obj)).unwrap(), vec![5]);
}

#[test]
fn instances_are_freed_exactly_once() {
    let mut heap: Heap = Binding::new();
    let mut b = build();
    b.constructor(callable(|ctx, _this| match ctx.pop() {
        Some(s) if s == "fail" => Err(ErrorKind::Error("refused".to_string())),
        _ => Ok(0),
    }));
    let layout = materialize(&mut heap, b);
    let mut handles = Vec::new();
    for i in 0..20 {
        let mut stack = vec![if i % 3 == 0 { "fail".to_string() } else { "ok".to_string() }];
        handles.push(construct(&mut heap, &layout, &mut stack).ok());
    }
    let mut freed = 0;
    for h in &handles {
        if heap.class_dtor(*h).is_some() {
            freed += 1;
        }
        assert!(heap.class_dtor(*h).is_none());
    }
    assert_eq!(freed, handles.iter().filter(|h| h.is_some()).count());
    assert_eq!(freed, 13);
}

#[test]
fn methods_are_shared_and_instances_separate() {
    let mut heap: Heap = Binding::new();
    let mut b = build();
    b.method(
        "add",
        callable(|_ctx, this| {
            this.push(1);
            Ok(0)
        }),
    );
    let layout = materialize(&mut heap, b);
    assert_eq!(layout.methods.len(), 1);
    let add = handle_of(&layout, "add");
    let mut stack = Vec::new();
    let first = construct(&mut heap, &layout, &mut stack).unwrap();
    let second = construct(&mut heap, &layout, &mut stack).unwrap();
    assert_ne!(first, second);
    for _ in 0..3 {
        call(&mut heap, add, Some(first), &mut stack).unwrap();
    }
    let d1 = heap.get_instance(Some(first)).unwrap();
    let d2 = heap.get_instance(Some(second)).unwrap();
    assert_eq!(d1.len(), 3);
    assert_eq!(d2.len(), 0);
    heap.put_instance(first, d1);
    heap.put_instance(second, d2);
    assert!(heap.method_dtor(add).is_some());
    assert!(heap.method_dtor(add).is_none());
}

#[test]
fn last_registered_method_wins() {
    let mut heap: Heap = Binding::new();
    let mut b = build();
    b.method(
        "m",
        callable(|ctx, _this| {
            ctx.push("first".to_string());
            Ok(1)
        }),
    )
    .method(
        "m",
        callable(|ctx, _this| {
            ctx.push("second".to_string());
            Ok(1)
        }),
    );
    let layout = materialize(&mut heap, b);
    assert_eq!(layout.methods.len(), 1);
    let mut stack = Vec::new();
    let obj = construct(&mut heap, &layout, &mut stack).unwrap();
    call(&mut heap, handle_of(&layout, "m"), Some(obj), &mut stack).unwrap();
    assert_eq!(stack, vec!["second".to_string()]);
}

#[test]
fn set_replaces_and_keeps_order() {
    let mut heap: Heap = Binding::new();
    let mut b = build();
    b.set("a", Prototype::Method(callable(|_c, _t| Ok(1))))
        .set("b", Prototype::Method(callable(|_c, _t| Ok(2))))
        .set("a", Prototype::Method(callable(|_c, _t| Ok(3))));
    let layout = materialize(&mut heap, b);
    let names: Vec<&str> = layout.methods.iter().map(|(n, _)| n.as_str()).collect();
    assert_eq!(names, vec!["a", "b"]);
    let mut stack = Vec::new();
    let obj = construct(&mut heap, &layout, &mut stack).unwrap();
    assert_eq!(call(&mut heap, handle_of(&layout, "a"), Some(obj), &mut stack), Ok(3));
    assert_eq!(call(&mut heap, handle_of(&layout, "b"), Some(obj), &mut stack), Ok(2));
}

#[test]
fn unnamed_class_has_no_name() {
    let mut heap: Heap = Binding::new();
    let b: Builder<Callable, usize> = build();
    let layout = materialize(&mut heap, b);
    assert!(layout.name.is_none());
    assert!(layout.ctor.is_none());
    assert!(layout.methods.is_empty());
}

#[test]
fn failing_method_passes_its_error_on() {
    let mut heap: Heap = Binding::new();
    let mut b = build();
    b.method("fail", callable(|_ctx, _this| Err(ErrorKind::TypeError("expected a number".to_string()))));
    let layout = materialize(&mut heap, b);
    let fail = handle_of(&layout, "fail");
    let mut stack = Vec::new();
    let obj = construct(&mut heap, &layout, &mut stack).unwrap();
    for _ in 0..2 {
        let r = call(&mut heap, fail, Some(obj), &mut stack);
        assert_eq!(r, Err(ErrorKind::TypeError("expected a number".to_string())));
    }
}

#[test]
fn busy_instance_and_released_method_are_errors() {
    let mut heap: Heap = Binding::new();
    let mut b = build();
    b.method("get", callable(|_ctx, _this| Ok(1)));
    let layout = materialize(&mut heap, b);
    let get = handle_of(&layout, "get");
    let mut stack = Vec::new();
    let obj = construct(&mut heap, &layout, &mut stack).unwrap();

    let lent = heap.get_instance(Some(obj)).unwrap();
    assert!(matches!(call(&mut heap, get, Some(obj), &mut stack), Err(ErrorKind::Error(_))));
    heap.put_instance(obj, lent);
    assert_eq!(call(&mut heap, get, Some(obj), &mut stack), Ok(1));

    assert!(heap.class_dtor(Some(obj)).is_some());
    assert!(matches!(call(&mut heap, get, Some(obj), &mut stack), Err(ErrorKind::ReferenceError(_))));
    assert!(heap.method_dtor(get).is_some());
    assert!(matches!(call(&mut heap, get, Some(obj), &mut stack), Err(ErrorKind::Error(_))));
}
