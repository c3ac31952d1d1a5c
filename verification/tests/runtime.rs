use dsl_ractor::ast::decl::parse_declaration;
use dsl_ractor::body::parse_block_or_expr;
use dsl_ractor::diag::Span;
use dsl_ractor::expand::expand::actor_impl;
use dsl_ractor::method::{
    method, HANDLE_MSG_OUTPUT, HANDLE_MSG_PARAMS, ON_START_OUTPUT, ON_START_PARAMS,
};
use dsl_ractor::parse::actor_args::parse_actor_args;
use dsl_ractor::shape::{guard, Shape};
use dsl_ractor::validate::args::validate_actor_args;
use ractor::rpc::CallResult;
use ractor::{Actor, RpcReplyPort};

pub enum Op {
    Inc,
    Dec,
    Get(RpcReplyPort<i32>),
}

const ITEM: &str = "pub struct Counter;";

const ON_START_BODY: &str = "Ok(0)";

const HANDLE_BODY: &str = "match msg {
    Op::Inc => { *state += 1; Ok(()) }
    Op::Dec => { *state -= 1; Ok(()) }
    Op::Get(reply) => { let _ = reply.send(*state); Ok(()) }
}";

/// The code for `Counter`. The items below this text are the same code, for
/// the compiler. The impl and `on_start` are in the shape of a build without
/// the flag. `handle_msg` is in the other shape: this file is built in the
/// 2021 edition, where a future that a method returns must name the borrows
/// it holds, and the future of the first shape holds the state's.
const WRITTEN: &str = "
pub struct Counter;

impl ::ractor::Actor for Counter {
    type Msg = Op;
    type State = i32;
    type Arguments = ();

    fn pre_start(&self, myself: ::ractor::ActorRef<Self::Msg>, args: Self::Arguments) -> impl ::core::future::Future<Output = ::core::result::Result<Self::State, ::ractor::ActorProcessingErr>> + Send {
        self.on_start(myself, args)
    }

    fn handle(&self, myself: ::ractor::ActorRef<Self::Msg>, msg: Self::Msg, state: &mut Self::State) -> impl ::core::future::Future<Output = ::core::result::Result<(), ::ractor::ActorProcessingErr>> + Send {
        self.handle_msg(myself, msg, state)
    }
}

impl Counter {
    pub fn on_start(&self, myself: ractor::ActorRef<<Self as ractor::Actor>::Msg>, args: <Self as ractor::Actor>::Arguments,) -> impl ::core::future::Future<Output = ::core::result::Result<(<Self as ractor::Actor>::State), ractor::ActorProcessingErr>> + Send {
        async move {
            {
                Ok(0)
            }
        }
    }

    pub async fn handle_msg(&self, myself: ractor::ActorRef<<Self as ractor::Actor>::Msg>, msg: <Self as ractor::Actor>::Msg, state: &mut <Self as ractor::Actor>::State,) -> ::core::result::Result<(), ractor::ActorProcessingErr> {
        {
            match msg {
                Op::Inc => { *state += 1; Ok(()) }
                Op::Dec => { *state -= 1; Ok(()) }
                Op::Get(reply) => { let _ = reply.send(*state); Ok(()) }
            }
        }
    }
}
";

pub struct Counter;

impl ::ractor::Actor for Counter {
    type Msg = Op;
    type State = i32;
    type Arguments = ();

    fn pre_start(&self, myself: ::ractor::ActorRef<Self::Msg>, args: Self::Arguments) -> impl ::core::future::Future<Output = ::core::result::Result<Self::State, ::ractor::ActorProcessingErr>> + Send {
        self.on_start(myself, args)
    }

    fn handle(&self, myself: ::ractor::ActorRef<Self::Msg>, msg: Self::Msg, state: &mut Self::State) -> impl ::core::future::Future<Output = ::core::result::Result<(), ::ractor::ActorProcessingErr>> + Send {
        self.handle_msg(myself, msg, state)
    }
}

#[allow(unused_variables, unused_parens)]
impl Counter {
    pub fn on_start(&self, myself: ractor::ActorRef<<Self as ractor::Actor>::Msg>, args: <Self as ractor::Actor>::Arguments,) -> impl ::core::future::Future<Output = ::core::result::Result<(<Self as ractor::Actor>::State), ractor::ActorProcessingErr>> + Send {
        async move {
            {
                Ok(0)
            }
        }
    }

    pub async fn handle_msg(&self, myself: ractor::ActorRef<<Self as ractor::Actor>::Msg>, msg: <Self as ractor::Actor>::Msg, state: &mut <Self as ractor::Actor>::State,) -> ::core::result::Result<(), ractor::ActorProcessingErr> {
        {
            match msg {
                Op::Inc => { *state += 1; Ok(()) }
                Op::Dec => { *state -= 1; Ok(()) }
                Op::Get(reply) => { let _ = reply.send(*state); Ok(()) }
            }
        }
    }
}

/// The code for `Mirror`, which differs from `Counter` in its name and in the
/// shape of `on_start`.
const MIRRORED: &str = "
pub struct Mirror;

impl ::ractor::Actor for Mirror {
    type Msg = Op;
    type State = i32;
    type Arguments = ();

    fn pre_start(&self, myself: ::ractor::ActorRef<Self::Msg>, args: Self::Arguments) -> impl ::core::future::Future<Output = ::core::result::Result<Self::State, ::ractor::ActorProcessingErr>> + Send {
        self.on_start(myself, args)
    }

    fn handle(&self, myself: ::ractor::ActorRef<Self::Msg>, msg: Self::Msg, state: &mut Self::State) -> impl ::core::future::Future<Output = ::core::result::Result<(), ::ractor::ActorProcessingErr>> + Send {
        self.handle_msg(myself, msg, state)
    }
}

impl Mirror {
    pub async fn on_start(&self, myself: ractor::ActorRef<<Self as ractor::Actor>::Msg>, args: <Self as ractor::Actor>::Arguments,) -> ::core::result::Result<(<Self as ractor::Actor>::State), ractor::ActorProcessingErr> {
        {
            Ok(0)
        }
    }

    pub async fn handle_msg(&self, myself: ractor::ActorRef<<Self as ractor::Actor>::Msg>, msg: <Self as ractor::Actor>::Msg, state: &mut <Self as ractor::Actor>::State,) -> ::core::result::Result<(), ractor::ActorProcessingErr> {
        {
            match msg {
                Op::Inc => { *state += 1; Ok(()) }
                Op::Dec => { *state -= 1; Ok(()) }
                Op::Get(reply) => { let _ = reply.send(*state); Ok(()) }
            }
        }
    }
}
";

pub struct Mirror;

impl ::ractor::Actor for Mirror {
    type Msg = Op;
    type State = i32;
    type Arguments = ();

    fn pre_start(&self, myself: ::ractor::ActorRef<Self::Msg>, args: Self::Arguments) -> impl ::core::future::Future<Output = ::core::result::Result<Self::State, ::ractor::ActorProcessingErr>> + Send {
        self.on_start(myself, args)
    }

    fn handle(&self, myself: ::ractor::ActorRef<Self::Msg>, msg: Self::Msg, state: &mut Self::State) -> impl ::core::future::Future<Output = ::core::result::Result<(), ::ractor::ActorProcessingErr>> + Send {
        self.handle_msg(myself, msg, state)
    }
}

#[allow(unused_variables, unused_parens)]
impl Mirror {
    pub async fn on_start(&self, myself: ractor::ActorRef<<Self as ractor::Actor>::Msg>, args: <Self as ractor::Actor>::Arguments,) -> ::core::result::Result<(<Self as ractor::Actor>::State), ractor::ActorProcessingErr> {
        {
            Ok(0)
        }
    }

    pub async fn handle_msg(&self, myself: ractor::ActorRef<<Self as ractor::Actor>::Msg>, msg: <Self as ractor::Actor>::Msg, state: &mut <Self as ractor::Actor>::State,) -> ::core::result::Result<(), ractor::ActorProcessingErr> {
        {
            match msg {
                Op::Inc => { *state += 1; Ok(()) }
                Op::Dec => { *state -= 1; Ok(()) }
                Op::Get(reply) => { let _ = reply.send(*state); Ok(()) }
            }
        }
    }
}

fn tokens_of(text: &str) -> String {
    text.parse::<proc_macro2::TokenStream>().unwrap().to_string()
}

fn unguarded(shape: Shape, text: String) -> String {
    text.strip_prefix(guard(shape).as_str()).unwrap().to_string()
}

fn written(item: &str, name: &str, start_shape: Shape) -> String {
    let decl = parse_declaration(item).unwrap();
    let v = validate_actor_args(parse_actor_args(Span::Annotation, "msg=Op, state=i32").unwrap())
        .unwrap();
    let start = parse_block_or_expr(ON_START_BODY).unwrap();
    let handle = parse_block_or_expr(HANDLE_BODY).unwrap();
    format!(
        "{}\n{}impl {} {{\n{}{}}}\n",
        item,
        actor_impl(&decl, &v, Shape::ShimAsync),
        name,
        unguarded(
            start_shape,
            method(start_shape, "on_start", ON_START_PARAMS, ON_START_OUTPUT, &start)
        ),
        unguarded(
            Shape::NativeAsync,
            method(
                Shape::NativeAsync,
                "handle_msg",
                HANDLE_MSG_PARAMS,
                HANDLE_MSG_OUTPUT,
                &handle
            )
        ),
    )
}

fn drive<A: Actor<Msg = Op, State = i32, Arguments = ()>>(actor: A, ops: Vec<Op>) -> i32 {
    let runtime = tokio::runtime::Builder::new_current_thread().enable_all().build().unwrap();
    let state = runtime.block_on(async {
        let (actor, handle) = Actor::spawn(None, actor, ()).await.unwrap();
        for op in ops {
            actor.cast(op).unwrap();
        }
        let state = actor.call(Op::Get, None).await.unwrap();
        actor.stop(None);
        handle.await.unwrap();
        state
    });
    match state {
        CallResult::Success(state) => state,
        _ => panic!("the actor did not answer"),
    }
}

#[test]
fn the_code_that_runs_is_the_code_that_is_written() {
    assert_eq!(tokens_of(&written(ITEM, "Counter", Shape::ShimAsync)), tokens_of(WRITTEN));
    assert_eq!(
        tokens_of(&written("pub struct Mirror;", "Mirror", Shape::NativeAsync)),
        tokens_of(MIRRORED)
    );
}

#[test]
fn a_counter_counts_through_the_runtime() {
    let state = drive(Counter, vec![Op::Inc, Op::Inc, Op::Dec]);
    let mut by_hand = 0;
    by_hand += 1;
    by_hand += 1;
    by_hand -= 1;
    assert_eq!(state, 1);
    assert_eq!(state, by_hand);
    assert_eq!(drive(Counter, Vec::new()), 0);
}

#[test]
fn both_shapes_of_on_start_count_alike() {
    for ops in [
        vec![],
        vec![Op::Inc],
        vec![Op::Dec, Op::Dec],
        vec![Op::Inc, Op::Inc, Op::Dec],
        vec![Op::Inc, Op::Dec, Op::Inc, Op::Inc, Op::Inc],
    ] {
        let again = ops
            .iter()
            .map(|op| match op {
                Op::Inc => Op::Inc,
                _ => Op::Dec,
            })
            .collect();
        assert_eq!(drive(Counter, ops), drive(Mirror, again));
    }
}
